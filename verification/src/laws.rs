//! Properties that hold across the library's operations.

use vstd::prelude::*;
use crate::grsai::{
    authorization_of, data_url_payload, reference_source, ReferenceSourceView, bare_model, is_gpt_image_2, listed_models, normalized_model, poll_outcome,
    poll_step, pro_variant, result_url, sizing_outcome, submission_outcome, supports, with_api_key,
    dims_text, ratio_text, resolution_text, vip_dimensions, vip_lookup, vip_row, vip_row_count,
    vip_text_row, GrsaiProvider, PollActionView,
};
use crate::jobs::{
    activity_outcome, apply_update, apply_write, cancel_outcome, poll_job_outcome, record_status,
    status_step, GenerationJobRecord, JobUpdateView, StatusStepView,
};
use crate::json::{find_key, JsonValue};
use crate::polish::{
    is_polish_plan, join_lines, video_metadata_prefix, video_param_lines, ChatContent, PolishBody, PolishPlan,
    PolishTextRequest, TEXT_POLISH_TEMPLATE, VIDEO_PARAMS_TITLE, VIDEO_POLISH_TEMPLATE,
};
use crate::provider::{AIErrorView, GenerateRequest, PollView, SubmissionView};
use crate::registry::all_listed_models;
use crate::text::{decimal, digit_char, first_index, is_first_index, lemma_first_index_unique, lowercase, split_once_spec, trim_ws};

verus! {

/// Once an API key is set, requests authenticate as its bearer.
pub proof fn law_api_key_read_after_write(p: GrsaiProvider, api_key: String)
    ensures
        authorization_of(with_api_key(p, api_key)) == Ok::<Seq<char>, AIErrorView>("Bearer "@ + api_key@),
{
}

/// Every model the provider lists is one it takes requests for.
pub proof fn law_listed_models_are_supported()
    ensures
        forall|i: int| 0 <= i < listed_models().len() ==> supports(#[trigger] listed_models()[i]),
{
    reveal_strlit("grsai/");
    reveal_strlit("grsai/nano-banana-2");
    reveal_strlit("grsai/nano-banana-pro");
    reveal_strlit("grsai/gpt-image-2");
    reveal_strlit("grsai/gpt-image-2-vip");
    assert forall|i: int| 0 <= i < listed_models().len() implies supports(#[trigger] listed_models()[i]) by {
        assert("grsai/"@.is_prefix_of(listed_models()[i]));
    }
}

/// Every model a registry lists is taken by one of its providers.
pub proof fn law_registry_models_are_supported(count: nat)
    ensures
        forall|i: int| 0 <= i < all_listed_models(count).len() ==> supports(#[trigger] all_listed_models(count)[i]),
    decreases count,
{
    law_listed_models_are_supported();
    if count > 0 {
        law_registry_models_are_supported((count - 1) as nat);
        let prev = all_listed_models((count - 1) as nat);
        assert forall|i: int| 0 <= i < all_listed_models(count).len() implies supports(
            #[trigger] all_listed_models(count)[i],
        ) by {
            if i < prev.len() {
                assert(all_listed_models(count)[i] == prev[i]);
            } else {
                assert(all_listed_models(count)[i] == listed_models()[i - prev.len()]);
            }
        }
    }
}

/// A pro variant always names a pro model.
pub proof fn law_pro_variant_is_a_pro_model(input: Seq<char>)
    ensures
        pro_variant(input) == "nano-banana-pro"@ || "nano-banana-pro-"@.is_prefix_of(pro_variant(input)),
{
}

/// A request is always sent with a gpt-image-2 model, `nano-banana-2`, or a pro model.
pub proof fn law_normalized_model_is_known(request: GenerateRequest)
    ensures
        ({
            let m = normalized_model(request);
            ||| m == "gpt-image-2"@
            ||| m == "gpt-image-2-vip"@
            ||| m == "nano-banana-2"@
            ||| m == "nano-banana-pro"@
            ||| "nano-banana-pro-"@.is_prefix_of(m)
        }),
{
    let requested = bare_model(request.model@);
    if requested == "nano-banana-pro"@ || "nano-banana-pro-"@.is_prefix_of(requested) {
        match crate::grsai::pro_model_param(request) {
            Some(p) => law_pro_variant_is_a_pro_model(p),
            None => {},
        }
    }
}

/// Only models outside the gpt-image-2 family send an image size, and every model
/// but gpt-image-2-vip sends the requested aspect ratio as it is.
pub proof fn law_image_size_only_outside_gpt_family(request: GenerateRequest, model: Seq<char>)
    ensures
        sizing_outcome(request, model) matches Ok(s) ==> (s.1 is None <==> is_gpt_image_2(model)),
        model != "gpt-image-2-vip"@ ==> (sizing_outcome(request, model) matches Ok(s) && s.0
            == request.aspect_ratio@),
{
}

/// A reply that carries a result URL is a finished image, whatever its status says.
pub proof fn law_result_url_means_success(payload: JsonValue)
    ensures
        result_url(payload) matches Some(u) ==> (poll_outcome(payload) == Ok::<PollView, AIErrorView>(
            PollView::Succeeded(u),
        ) && submission_outcome(payload) == Ok::<SubmissionView, AIErrorView>(
            SubmissionView::Succeeded(u),
        )),
{
}

/// The polling loop polls again exactly while the task is still running.
pub proof fn law_polling_stops_unless_running(outcome: Result<PollView, AIErrorView>)
    ensures
        (poll_step(outcome) == PollActionView::WaitAndRetry) <==> (outcome == Ok::<PollView, AIErrorView>(
            PollView::Running,
        )),
{
}

/// A succeeded or failed job is answered as stored, without polling or writing.
pub proof fn law_finished_job_answered_from_store(
    provider_count: nat,
    job_id: Seq<char>,
    record: GenerationJobRecord,
    meta: Option<JsonValue>,
)
    requires
        record.status@ == "succeeded"@ || record.status@ == "failed"@,
    ensures
        status_step(provider_count, job_id, Some(record), meta) == Ok::<StatusStepView, Seq<char>>(
            StatusStepView::Respond(record_status(record, meta)),
        ),
{
}

/// Once a poll has settled a job (any outcome but "running"), later status queries
/// answer from the store and do not poll again.
pub proof fn law_settled_job_is_not_polled_again(
    provider_count: nat,
    job_id: Seq<char>,
    before: GenerationJobRecord,
    meta: Option<JsonValue>,
    outcome: Result<PollView, AIErrorView>,
    after: GenerationJobRecord,
    later_meta: Option<JsonValue>,
)
    requires
        outcome != Ok::<PollView, AIErrorView>(PollView::Running),
        after@ == apply_write(before@, poll_job_outcome(before, meta, outcome).0),
    ensures
        status_step(provider_count, job_id, Some(after), later_meta) == Ok::<StatusStepView, Seq<char>>(
            StatusStepView::Respond(record_status(after, later_meta)),
        ),
{
    reveal_strlit("succeeded");
    reveal_strlit("failed");
}

/// A background job found inactive (cut off by a restart) is marked failed, and
/// later status queries answer from the store.
pub proof fn law_interrupted_job_stays_failed(
    provider_count: nat,
    job_id: Seq<char>,
    before: GenerationJobRecord,
    meta: Option<JsonValue>,
    after: GenerationJobRecord,
    later_meta: Option<JsonValue>,
)
    requires
        after@ == apply_write(before@, activity_outcome(before, meta, false).0),
    ensures
        after.status@ == "failed"@,
        status_step(provider_count, job_id, Some(after), later_meta) == Ok::<StatusStepView, Seq<char>>(
            StatusStepView::Respond(record_status(after, later_meta)),
        ),
{
}

/// A job is cancelled at most once: once cancelled, cancelling it again is refused.
pub proof fn law_cancel_is_not_repeated(before: GenerationJobRecord, update: JobUpdateView, after: GenerationJobRecord)
    requires
        cancel_outcome(Some(before)) == Ok::<JobUpdateView, Seq<char>>(update),
        after@ == apply_update(before@, update),
    ensures
        after.status@ == "cancelled"@,
        cancel_outcome(Some(after)) == Err::<JobUpdateView, Seq<char>>(
            "Job already in terminal state: "@ + "cancelled"@,
        ),
{
}

/// The video-parameter preamble is empty exactly when no parameter is given.
pub proof fn law_prefix_empty_iff_no_parameters(
    duration: Option<Seq<char>>,
    resolution: Option<Seq<char>>,
    aspect_ratio: Option<Seq<char>>,
    is_video_frame: bool,
)
    ensures
        (video_metadata_prefix(duration, resolution, aspect_ratio, is_video_frame).len() == 0) <==> (
        video_param_lines(duration, resolution, aspect_ratio, is_video_frame).len() == 0),
{
    let lines = video_param_lines(duration, resolution, aspect_ratio, is_video_frame);
    if lines.len() > 0 {
        reveal_strlit("当前视频生成固定参数（由用户选择，AI需遵循）：");
        let all = seq![VIDEO_PARAMS_TITLE@] + lines + seq![crate::polish::VIDEO_PARAMS_FOOTER@];
        lemma_join_keeps_first_line(all);
        assert(all[0] == VIDEO_PARAMS_TITLE@);
        assert(VIDEO_PARAMS_TITLE@.len() > 0);
    }
}

/// Joining lines keeps the first line at the front.
proof fn lemma_join_keeps_first_line(lines: Seq<Seq<char>>)
    requires
        lines.len() > 0,
    ensures
        join_lines(lines).len() >= lines[0].len(),
    decreases lines.len(),
{
    if lines.len() > 1 {
        lemma_join_keeps_first_line(lines.drop_last());
    }
}

/// A reference is skipped exactly when it is blank, and what is sent inline is
/// never empty.
pub proof fn law_references_sent_inline_are_not_empty(source: Seq<char>)
    ensures
        (reference_source(source) == ReferenceSourceView::Skip) <==> (trim_ws(source).len() == 0),
        reference_source(source) matches ReferenceSourceView::Inline(t) ==> t.len() > 0,
{
    let t = trim_ws(source);
    if t.len() > 0 && (data_url_payload(t) is Some) {
        assert(data_url_payload(t).unwrap().len() > 0);
    }
}

/// A decimal digit.
spec fn is_digit(c: char) -> bool {
    c == '0' || c == '1' || c == '2' || c == '3' || c == '4' || c == '5' || c == '6' || c == '7'
        || c == '8' || c == '9'
}

/// A decimal numeral is a non-empty run of digits.
proof fn lemma_decimal_digits(n: nat)
    ensures
        decimal(n).len() >= 1,
        forall|j: int| 0 <= j < decimal(n).len() ==> is_digit(#[trigger] decimal(n)[j]),
    decreases n,
{
    if n >= 10 {
        lemma_decimal_digits(n / 10);
        assert(decimal(n) == decimal(n / 10).push(digit_char(n % 10)));
    }
}

/// Distinct numbers have distinct numerals.
proof fn lemma_decimal_injective(n: nat, m: nat)
    requires
        decimal(n) == decimal(m),
    ensures
        n == m,
    decreases n,
{
    if n >= 10 {
        lemma_decimal_digits(n / 10);
    }
    if m >= 10 {
        lemma_decimal_digits(m / 10);
    }
    if n < 10 && m < 10 {
        assert(decimal(n)[0] == digit_char(n));
        assert(decimal(m)[0] == digit_char(m));
    }
    if n < 10 && m >= 10 {
        assert(decimal(m).len() == decimal(m / 10).len() + 1);
    }
    if m < 10 && n >= 10 {
        assert(decimal(n).len() == decimal(n / 10).len() + 1);
    }
    if n >= 10 && m >= 10 {
        let dn = decimal(n);
        assert(dn == decimal(n / 10).push(digit_char(n % 10)));
        assert(decimal(m) == decimal(m / 10).push(digit_char(m % 10)));
        assert(dn.drop_last() =~= decimal(n / 10));
        assert(decimal(m).drop_last() =~= decimal(m / 10));
        lemma_decimal_injective(n / 10, m / 10);
        assert(dn.last() == digit_char(n % 10));
        assert(decimal(m).last() == digit_char(m % 10));
        assert(n % 10 == m % 10);
        assert(n == 10 * (n / 10) + n % 10);
        assert(m == 10 * (m / 10) + m % 10);
    }
}

/// Text split at a separator that the first parts do not hold splits into equal parts.
proof fn lemma_split_at_separator(x1: Seq<char>, y1: Seq<char>, x2: Seq<char>, y2: Seq<char>, c: char)
    requires
        forall|j: int| 0 <= j < x1.len() ==> x1[j] != c,
        forall|j: int| 0 <= j < x2.len() ==> x2[j] != c,
        x1 + seq![c] + y1 == x2 + seq![c] + y2,
    ensures
        x1 == x2,
        y1 == y2,
{
    let t = x1 + seq![c] + y1;
    let u = x2 + seq![c] + y2;
    if x1.len() < x2.len() {
        assert(t[x1.len() as int] == c);
        assert(u[x1.len() as int] == x2[x1.len() as int]);
    }
    if x2.len() < x1.len() {
        assert(u[x2.len() as int] == c);
        assert(t[x2.len() as int] == x1[x2.len() as int]);
    }
    assert(x1 =~= t.subrange(0, x1.len() as int));
    assert(x2 =~= u.subrange(0, x2.len() as int));
    assert(y1 =~= t.subrange(x1.len() as int + 1, t.len() as int));
    assert(y2 =~= u.subrange(x2.len() as int + 1, u.len() as int));
}

/// Two numerals joined by a separator that is no digit determine both numbers.
proof fn lemma_joined_numerals_injective(a: nat, b: nat, a2: nat, b2: nat, c: char)
    requires
        !is_digit(c),
        decimal(a) + seq![c] + decimal(b) == decimal(a2) + seq![c] + decimal(b2),
    ensures
        a == a2,
        b == b2,
{
    lemma_decimal_digits(a);
    lemma_decimal_digits(a2);
    assert forall|j: int| 0 <= j < decimal(a).len() implies decimal(a)[j] != c by {
        assert(is_digit(decimal(a)[j]));
    }
    assert forall|j: int| 0 <= j < decimal(a2).len() implies decimal(a2)[j] != c by {
        assert(is_digit(decimal(a2)[j]));
    }
    lemma_split_at_separator(decimal(a), decimal(b), decimal(a2), decimal(b2), c);
    lemma_decimal_injective(a, a2);
    lemma_decimal_injective(b, b2);
}

/// A resolution's text determines its number.
proof fn lemma_resolution_text_injective(k: nat, k2: nat)
    requires
        resolution_text(k) == resolution_text(k2),
    ensures
        k == k2,
{
    assert(resolution_text(k).drop_last() =~= decimal(k));
    assert(resolution_text(k2).drop_last() =~= decimal(k2));
    lemma_decimal_injective(k, k2);
}

/// Where the rows of the table stand: the ratios by the first row of their group.
spec fn vip_group_start(a: u32, b: u32) -> int {
    if a == 1 && b == 1 {
        0
    } else if a == 16 && b == 9 {
        3
    } else if a == 9 && b == 16 {
        6
    } else if a == 4 && b == 3 {
        9
    } else if a == 3 && b == 4 {
        12
    } else if a == 3 && b == 2 {
        15
    } else if a == 2 && b == 3 {
        18
    } else if a == 5 && b == 4 {
        21
    } else if a == 4 && b == 5 {
        24
    } else if a == 21 && b == 9 {
        27
    } else if a == 9 && b == 21 {
        30
    } else if a == 1 && b == 3 {
        33
    } else if a == 3 && b == 1 {
        35
    } else if a == 2 && b == 1 {
        37
    } else if a == 1 && b == 2 {
        40
    } else {
        -1
    }
}

/// The row that holds a ratio and resolution.
spec fn vip_key_index(a: u32, b: u32, k: u32) -> int {
    vip_group_start(a, b) + if k == 1 {
        0int
    } else if k == 2 {
        1int
    } else {
        2int
    }
}

/// The row of the swapped ratio at the same resolution.
spec fn vip_partner(i: int) -> int {
    if i < 3 {
        i
    } else if i < 33 {
        if (i / 3) % 2 == 1 {
            i + 3
        } else {
            i - 3
        }
    } else if i < 35 {
        i + 2
    } else if i < 37 {
        i - 2
    } else if i < 40 {
        i + 3
    } else {
        i - 3
    }
}

/// Each row is the one its ratio and resolution name.
proof fn lemma_vip_rows_are_keyed()
    ensures
        forall|i: int|
            0 <= i < vip_row_count() ==> vip_key_index(#[trigger] vip_row(i).0, vip_row(i).1, vip_row(i).2)
                == i,
{
}

/// The table holds each ratio's swap, at the same resolution with width and height swapped.
proof fn lemma_vip_rows_swap()
    ensures
        forall|i: int|
            0 <= i < vip_row_count() ==> 0 <= vip_partner(i) < vip_row_count() && #[trigger] vip_row(
                vip_partner(i),
            ) == (vip_row(i).1, vip_row(i).0, vip_row(i).2, vip_row(i).4, vip_row(i).3),
{
}

/// After each 1K row stands the same ratio's 2K row, wider and taller.
proof fn lemma_vip_rows_grow_to_2k()
    ensures
        forall|i: int|
            0 <= i < vip_row_count() && (#[trigger] vip_row(i)).2 == 1 ==> i + 1 < vip_row_count()
                && vip_row(i + 1).0 == vip_row(i).0 && vip_row(i + 1).1 == vip_row(i).1 && vip_row(
                i + 1,
            ).2 == 2 && vip_row(i).3 < vip_row(i + 1).3 && vip_row(i).4 < vip_row(i + 1).4,
{
}

/// Before each 4K row stands the same ratio's 2K row, narrower and lower.
proof fn lemma_vip_rows_grow_to_4k()
    ensures
        forall|i: int|
            0 <= i < vip_row_count() && (#[trigger] vip_row(i)).2 == 4 ==> 1 <= i && vip_row(i - 1).0
                == vip_row(i).0 && vip_row(i - 1).1 == vip_row(i).1 && vip_row(i - 1).2 == 2 && vip_row(
                i - 1,
            ).3 < vip_row(i).3 && vip_row(i - 1).4 < vip_row(i).4,
{
}

/// Two rows with the same ratio and resolution text are the same row.
proof fn lemma_vip_text_key_unique(i: int, j: int)
    requires
        0 <= i < vip_row_count(),
        0 <= j < vip_row_count(),
        vip_text_row(i).0 == vip_text_row(j).0,
        vip_text_row(i).1 == vip_text_row(j).1,
    ensures
        i == j,
{
    let r = vip_row(i);
    let q = vip_row(j);
    lemma_joined_numerals_injective(r.0 as nat, r.1 as nat, q.0 as nat, q.1 as nat, ':');
    lemma_resolution_text_injective(r.2 as nat, q.2 as nat);
    lemma_vip_rows_are_keyed();
    assert(vip_key_index(r.0, r.1, r.2) == i);
    assert(vip_key_index(q.0, q.1, q.2) == j);
}

/// A size that the lookup finds comes from a row with that ratio and resolution.
proof fn lemma_vip_lookup_row(aspect_ratio: Seq<char>, size: Seq<char>, from: int) -> (i: int)
    requires
        vip_lookup(aspect_ratio, size, from) is Some,
    ensures
        from <= i < vip_row_count(),
        0 <= i,
        vip_text_row(i).0 == aspect_ratio,
        vip_text_row(i).1 == size,
        vip_lookup(aspect_ratio, size, from) == Some(vip_text_row(i).2),
    decreases vip_row_count() - from,
{
    if vip_text_row(from).0 == aspect_ratio && vip_text_row(from).1 == size {
        from
    } else {
        lemma_vip_lookup_row(aspect_ratio, size, from + 1)
    }
}

/// The lookup finds the row that holds a ratio and resolution.
proof fn lemma_vip_lookup_finds(aspect_ratio: Seq<char>, size: Seq<char>, i: int, from: int)
    requires
        0 <= from <= i < vip_row_count(),
        vip_text_row(i).0 == aspect_ratio,
        vip_text_row(i).1 == size,
    ensures
        vip_lookup(aspect_ratio, size, from) == Some(vip_text_row(i).2),
    decreases i - from,
{
    if from < i {
        if vip_text_row(from).0 == aspect_ratio && vip_text_row(from).1 == size {
            lemma_vip_text_key_unique(from, i);
        }
        lemma_vip_lookup_finds(aspect_ratio, size, i, from + 1);
    }
}

/// Swapping the sides of an aspect ratio swaps the width and height of its
/// gpt-image-2-vip size, at every resolution.
pub proof fn law_swapped_ratio_swaps_dimensions(a: nat, b: nat, size: Seq<char>, w: nat, h: nat)
    requires
        vip_dimensions(ratio_text(a, b), size) == Some(dims_text(w, h)),
    ensures
        vip_dimensions(ratio_text(b, a), size) == Some(dims_text(h, w)),
{
    let i = lemma_vip_lookup_row(ratio_text(a, b), size, 0);
    let r = vip_row(i);
    lemma_joined_numerals_injective(r.0 as nat, r.1 as nat, a, b, ':');
    lemma_joined_numerals_injective(r.3 as nat, r.4 as nat, w, h, 'x');
    lemma_vip_rows_swap();
    let j = vip_partner(i);
    assert(vip_row(j) == (r.1, r.0, r.2, r.4, r.3));
    lemma_vip_lookup_finds(ratio_text(b, a), size, j, 0);
}

/// The resolution `kK` written as the requests write it.
proof fn lemma_resolution_literals()
    ensures
        resolution_text(1) == "1K"@,
        resolution_text(2) == "2K"@,
        resolution_text(4) == "4K"@,
{
    reveal_strlit("1K");
    reveal_strlit("2K");
    reveal_strlit("4K");
    assert(resolution_text(1) =~= "1K"@);
    assert(resolution_text(2) =~= "2K"@);
    assert(resolution_text(4) =~= "4K"@);
}

/// At every aspect ratio the gpt-image-2-vip 2K size is wider and taller than
/// the 1K size.
pub proof fn law_2k_is_larger_than_1k(aspect_ratio: Seq<char>, w1: nat, h1: nat, w2: nat, h2: nat)
    requires
        vip_dimensions(aspect_ratio, "1K"@) == Some(dims_text(w1, h1)),
        vip_dimensions(aspect_ratio, "2K"@) == Some(dims_text(w2, h2)),
    ensures
        w1 < w2,
        h1 < h2,
{
    lemma_resolution_literals();
    let i = lemma_vip_lookup_row(aspect_ratio, "1K"@, 0);
    let j = lemma_vip_lookup_row(aspect_ratio, "2K"@, 0);
    let r = vip_row(i);
    let q = vip_row(j);
    lemma_resolution_text_injective(r.2 as nat, 1);
    lemma_joined_numerals_injective(r.3 as nat, r.4 as nat, w1, h1, 'x');
    lemma_joined_numerals_injective(q.3 as nat, q.4 as nat, w2, h2, 'x');
    lemma_vip_rows_grow_to_2k();
    assert(vip_row(i).2 == 1);
    reveal_strlit("2K");
    lemma_vip_text_key_unique(i + 1, j);
}

/// At every aspect ratio that has a gpt-image-2-vip 4K size, it is wider and
/// taller than the 2K size.
pub proof fn law_4k_is_larger_than_2k(aspect_ratio: Seq<char>, w2: nat, h2: nat, w4: nat, h4: nat)
    requires
        vip_dimensions(aspect_ratio, "2K"@) == Some(dims_text(w2, h2)),
        vip_dimensions(aspect_ratio, "4K"@) == Some(dims_text(w4, h4)),
    ensures
        w2 < w4,
        h2 < h4,
{
    lemma_resolution_literals();
    let i = lemma_vip_lookup_row(aspect_ratio, "2K"@, 0);
    let j = lemma_vip_lookup_row(aspect_ratio, "4K"@, 0);
    let r = vip_row(i);
    let q = vip_row(j);
    lemma_resolution_text_injective(q.2 as nat, 4);
    lemma_joined_numerals_injective(r.3 as nat, r.4 as nat, w2, h2, 'x');
    lemma_joined_numerals_injective(q.3 as nat, q.4 as nat, w4, h4, 'x');
    lemma_vip_rows_grow_to_4k();
    assert(vip_row(j).2 == 4);
    lemma_vip_text_key_unique(j - 1, i);
}

/// Every row of the gpt-image-2-vip table has the shape of its ratio: landscape
/// for a wider ratio, portrait for a taller one, square for 1:1, and width to
/// height within one percent of the ratio.
proof fn lemma_vip_rows_keep_their_ratio()
    ensures
        forall|i: int|
            0 <= i < vip_row_count() ==> {
                let r = #[trigger] vip_row(i);
                &&& (r.3 > r.4) == (r.0 > r.1)
                &&& (r.3 < r.4) == (r.0 < r.1)
                &&& 100 * (r.3 as int * r.1 as int) <= 101 * (r.4 as int * r.0 as int)
                &&& 99 * (r.4 as int * r.0 as int) <= 100 * (r.3 as int * r.1 as int)
            },
{
}

/// A gpt-image-2-vip size has the shape of its aspect ratio `a:b`: wider than
/// tall exactly when `a > b`, taller than wide exactly when `a < b`, and `w:h`
/// within one percent of `a:b`.
pub proof fn law_vip_sizes_keep_the_ratio(a: nat, b: nat, size: Seq<char>, w: nat, h: nat)
    requires
        vip_dimensions(ratio_text(a, b), size) == Some(dims_text(w, h)),
    ensures
        (w > h) == (a > b),
        (w < h) == (a < b),
        100 * (w * b) <= 101 * (h * a),
        99 * (h * a) <= 100 * (w * b),
{
    let i = lemma_vip_lookup_row(ratio_text(a, b), size, 0);
    let r = vip_row(i);
    lemma_joined_numerals_injective(r.0 as nat, r.1 as nat, a, b, ':');
    lemma_joined_numerals_injective(r.3 as nat, r.4 as nat, w, h, 'x');
    lemma_vip_rows_keep_their_ratio();
    assert(vip_row(i) == r);
}

/// The first member named `key` at or after `from` is found there.
proof fn lemma_find_key_first(entries: Seq<(String, JsonValue)>, key: Seq<char>, from: int, k: int)
    requires
        0 <= from <= k < entries.len(),
        entries[k].0@ == key,
        forall|j: int| from <= j < k ==> entries[j].0@ != key,
    ensures
        find_key(entries, key, from) == Some(k),
    decreases k - from,
{
    if from < k {
        lemma_find_key_first(entries, key, from + 1, k);
    }
}

/// A request for a pro model (`nano-banana-pro` or a `nano-banana-pro-` variant,
/// bare or under `grsai/`) that carries a `grsai_pro_model` text is sent with that
/// text trimmed and lower-cased where it names a pro model, else with
/// `nano-banana-pro`, whichever pro variant was requested.
pub proof fn law_pro_requests_follow_the_pro_model_parameter(
    request: GenerateRequest,
    variant: Seq<char>,
    params: Vec<(String, JsonValue)>,
    k: int,
    p: String,
)
    requires
        written_as(request, variant),
        !variant.contains('/'),
        variant == "nano-banana-pro"@ || "nano-banana-pro-"@.is_prefix_of(variant),
        request.extra_params == Some(params),
        0 <= k < params@.len(),
        params@[k].0@ == "grsai_pro_model"@,
        forall|j: int| 0 <= j < k ==> params@[j].0@ != "grsai_pro_model"@,
        params@[k].1 == JsonValue::Str(p),
    ensures
        ({
            let t = lowercase(trim_ws(p@));
            normalized_model(request) == if t == "nano-banana-pro"@ || "nano-banana-pro-"@.is_prefix_of(t) {
                t
            } else {
                "nano-banana-pro"@
            }
        }),
{
    reveal_strlit("grsai/");
    reveal_strlit("nano-banana-pro");
    reveal_strlit("nano-banana-pro-");
    reveal_strlit("nano-banana-2");
    reveal_strlit("gpt-image-2");
    reveal_strlit("gpt-image-2-vip");
    lemma_bare_name(request, variant);
    if variant != "nano-banana-pro"@ {
        let pre = "nano-banana-pro-"@;
        assert(variant.subrange(0, pre.len() as int) == pre);
        assert(variant[0] == pre[0]);
        assert(variant[12] == pre[12]);
    }
    assert(variant[0] == 'n');
    assert(variant.len() >= 15);
    assert(variant[12] == 'p');
    lemma_find_key_first(params@, "grsai_pro_model"@, 0, k);
}

/// A reference written as a base64 data URL, `data:<type>;base64,<payload>`, is
/// sent inline as its payload, whatever the media type.
pub proof fn law_data_url_references_send_their_payload(source: Seq<char>, media_type: Seq<char>, payload: Seq<char>)
    requires
        trim_ws(source) == "data:"@ + media_type + ";base64,"@ + payload,
        !media_type.contains(','),
        payload.len() > 0,
    ensures
        reference_source(source) == ReferenceSourceView::Inline(payload),
{
    reveal_strlit("data:");
    reveal_strlit(";base64,");
    reveal_strlit(";base64");
    reveal_strlit("http://");
    reveal_strlit("https://");
    let t = trim_ws(source);
    let head = "data:"@ + media_type + ";base64"@;
    assert(t =~= head + seq![','] + payload);
    let n = head.len() as int;
    assert forall|j: int| 0 <= j < n implies t[j] != ',' by {
        assert(t[j] == head[j]);
        if 5 <= j < 5 + media_type.len() {
            assert(head[j] == media_type[j - 5]);
            if media_type[j - 5] == ',' {
                assert(media_type.contains(','));
            }
        }
    }
    assert(t[n] == ',');
    assert(is_first_index(t, ',', n));
    lemma_first_index_unique(t, ',', n);
    assert(t.contains(','));
    assert(t.take(n) =~= head);
    assert(t.skip(n + 1) =~= payload);
    assert("data:"@.is_prefix_of(head));
    assert(";base64"@.is_suffix_of(head)) by {
        assert(head.subrange(n - 7, n) =~= ";base64"@);
    }
    assert(data_url_payload(t) == Some(payload));
    assert(t[0] == 'd');
}

/// The provider takes requests for each model it names: `nano-banana-2`,
/// `nano-banana-pro` and its `-vt`, `-cl`, `-vip`, `-4k-vip` variants,
/// `gpt-image-2`, `gpt-image-2-vip`, and each of them under `grsai/`.
pub proof fn law_named_models_are_supported()
    ensures
        supports("nano-banana-2"@),
        supports("nano-banana-pro"@),
        supports("nano-banana-pro-vt"@),
        supports("nano-banana-pro-cl"@),
        supports("nano-banana-pro-vip"@),
        supports("nano-banana-pro-4k-vip"@),
        supports("gpt-image-2"@),
        supports("gpt-image-2-vip"@),
        supports("grsai/nano-banana-2"@),
        supports("grsai/nano-banana-pro"@),
        supports("grsai/gpt-image-2"@),
        supports("grsai/gpt-image-2-vip"@),
        listed_models() == seq![
            "grsai/nano-banana-2"@,
            "grsai/nano-banana-pro"@,
            "grsai/gpt-image-2"@,
            "grsai/gpt-image-2-vip"@,
        ],
{
    reveal_strlit("grsai/");
    reveal_strlit("grsai/nano-banana-2");
    reveal_strlit("grsai/nano-banana-pro");
    reveal_strlit("grsai/gpt-image-2");
    reveal_strlit("grsai/gpt-image-2-vip");
    assert("grsai/"@.is_prefix_of("grsai/nano-banana-2"@));
    assert("grsai/"@.is_prefix_of("grsai/nano-banana-pro"@));
    assert("grsai/"@.is_prefix_of("grsai/gpt-image-2"@));
    assert("grsai/"@.is_prefix_of("grsai/gpt-image-2-vip"@));
    let m = crate::grsai::supported_models();
    assert(m[0] == "nano-banana-2"@);
    assert(m[1] == "nano-banana-pro"@);
    assert(m[2] == "nano-banana-pro-vt"@);
    assert(m[3] == "nano-banana-pro-cl"@);
    assert(m[4] == "nano-banana-pro-vip"@);
    assert(m[5] == "nano-banana-pro-4k-vip"@);
    assert(m[7] == "gpt-image-2"@);
    assert(m[8] == "gpt-image-2-vip"@);
}

/// Without a template of the user's own (none, or a blank one), a polish request
/// is framed by the image template exactly when its prompt type is `image`, and
/// by the video template otherwise: as the chat system message, or at the head
/// of the responses-API text.
pub proof fn law_default_template_follows_prompt_type(req: PolishTextRequest, plan: PolishPlan)
    requires
        is_polish_plan(req, plan),
        match req.custom_prompt {
            Some(c) => trim_ws(c@).len() == 0,
            None => true,
        },
    ensures
        ({
            let t = if req.prompt_type matches Some(pt) && pt@ == "image"@ {
                TEXT_POLISH_TEMPLATE@
            } else {
                VIDEO_POLISH_TEMPLATE@
            };
            match plan.body {
                PolishBody::Chat(b) => b.messages@.len() == 2 && b.messages@[0].role@ == "system"@
                    && (b.messages@[0].content matches ChatContent::Text(x) && x@ == t),
                PolishBody::Responses(b) => b.input@.len() == 1 && b.input@[0].content@.len() >= 1 && (
                b.input@[0].content@.last().text matches Some(x) && (t + "\n\n"@).is_prefix_of(x@)),
            }
        }),
{
    match plan.body {
        PolishBody::Chat(b) => {
            let v = crate::polish::chat_messages_view(b.messages@);
            assert(v.len() == 2);
            assert(v[0] == (b.messages@[0].role@, crate::polish::chat_content_view(b.messages@[0].content)));
        },
        PolishBody::Responses(b) => {
            let v = crate::polish::responses_input_view(b.input@);
            assert(v.len() == 1);
            let parts = b.input@[0].content@.map_values(
                |q: crate::polish::ResponsesInputContent| crate::polish::responses_part_view(q),
            );
            assert(v[0].1 == parts);
            assert(parts.len() >= 1);
            assert(parts.last() == crate::polish::responses_part_view(b.input@[0].content@.last()));
            let x = crate::polish::responses_user_text(req);
            assert((x).subrange(0, (crate::polish::default_template(req) + "\n\n"@).len() as int)
                =~= crate::polish::default_template(req) + "\n\n"@);
        },
    }
}

/// The model of a request written bare or under `grsai/`, as a request carries it.
pub open spec fn written_as(request: GenerateRequest, name: Seq<char>) -> bool {
    request.model@ == name || request.model@ == "grsai/"@ + name
}

/// The bare name of a model written as `name` or `grsai/` + `name`, where `name`
/// holds no `/`.
proof fn lemma_bare_name(request: GenerateRequest, name: Seq<char>)
    requires
        written_as(request, name),
        !name.contains('/'),
    ensures
        bare_model(request.model@) == name,
{
    reveal_strlit("grsai/");
    let m = request.model@;
    if m == "grsai/"@ + name {
        assert(m[5] == '/');
        assert(is_first_index(m, '/', 5));
        lemma_first_index_unique(m, '/', 5);
        assert(m.contains('/'));
        assert(m.skip(6) =~= name);
    }
}

/// Requests for `gpt-image-2`, `gpt-image-2-vip` or `nano-banana-2` (bare or under
/// `grsai/`) are sent with that model, whatever their parameters.
pub proof fn law_fixed_models_are_sent_as_requested(request: GenerateRequest, name: Seq<char>)
    requires
        name == "gpt-image-2"@ || name == "gpt-image-2-vip"@ || name == "nano-banana-2"@,
        written_as(request, name),
    ensures
        normalized_model(request) == name,
{
    reveal_strlit("gpt-image-2");
    reveal_strlit("gpt-image-2-vip");
    reveal_strlit("nano-banana-2");
    assert(!name.contains('/')) by {
        if name.contains('/') {
            let j = choose|j: int| 0 <= j < name.len() && name[j] == '/';
        }
    }
    lemma_bare_name(request, name);
}

/// A request for a pro model without a `grsai_pro_model` parameter is sent with
/// the pro variant it names.
pub proof fn law_pro_requests_without_parameter_keep_their_variant(request: GenerateRequest, variant: Seq<char>)
    requires
        written_as(request, variant),
        !variant.contains('/'),
        variant == "nano-banana-pro"@ || "nano-banana-pro-"@.is_prefix_of(variant),
        request.extra_params is None,
    ensures
        normalized_model(request) == variant,
{
    reveal_strlit("nano-banana-pro");
    reveal_strlit("nano-banana-pro-");
    reveal_strlit("nano-banana-2");
    reveal_strlit("gpt-image-2");
    reveal_strlit("gpt-image-2-vip");
    lemma_bare_name(request, variant);
    if variant != "nano-banana-pro"@ {
        let pre = "nano-banana-pro-"@;
        assert(variant.subrange(0, pre.len() as int) == pre);
        assert(variant[0] == pre[0]);
        assert(variant[12] == pre[12]);
    }
    assert(variant[0] == 'n');
    assert(variant.len() >= 15);
    assert(variant[12] == 'p');
}

/// A request for any other model is sent as `nano-banana-pro`.
pub proof fn law_unknown_models_become_nano_banana_pro(request: GenerateRequest, name: Seq<char>)
    requires
        written_as(request, name),
        !name.contains('/'),
        name != "gpt-image-2"@,
        name != "gpt-image-2-vip"@,
        name != "nano-banana-2"@,
        name != "nano-banana-pro"@,
        !"nano-banana-pro-"@.is_prefix_of(name),
    ensures
        normalized_model(request) == "nano-banana-pro"@,
{
    lemma_bare_name(request, name);
}

/// An HTTP(S) URL is sent as it is, trimmed.
pub proof fn law_url_references_are_sent_as_written(source: Seq<char>)
    requires
        "http://"@.is_prefix_of(trim_ws(source)) || "https://"@.is_prefix_of(trim_ws(source)),
    ensures
        reference_source(source) == ReferenceSourceView::Inline(trim_ws(source)),
{
    reveal_strlit("http://");
    reveal_strlit("https://");
}

/// A template of the user's own that is not blank frames a polish request
/// instead of the default: trimmed as the chat system message, as written at the
/// head of the responses-API text.
pub proof fn law_custom_template_replaces_the_default(req: PolishTextRequest, plan: PolishPlan, c: String)
    requires
        is_polish_plan(req, plan),
        req.custom_prompt == Some(c),
        trim_ws(c@).len() > 0,
    ensures
        match plan.body {
            PolishBody::Chat(b) => b.messages@.len() == 2 && b.messages@[0].role@ == "system"@
                && (b.messages@[0].content matches ChatContent::Text(x) && x@ == trim_ws(c@)),
            PolishBody::Responses(b) => b.input@.len() == 1 && b.input@[0].content@.len() >= 1 && (
            b.input@[0].content@.last().text matches Some(x) && (c@ + "\n\n"@).is_prefix_of(x@)),
        },
{
    match plan.body {
        PolishBody::Chat(b) => {
            let v = crate::polish::chat_messages_view(b.messages@);
            assert(v.len() == 2);
            assert(v[0] == (b.messages@[0].role@, crate::polish::chat_content_view(b.messages@[0].content)));
        },
        PolishBody::Responses(b) => {
            let v = crate::polish::responses_input_view(b.input@);
            assert(v.len() == 1);
            let parts = b.input@[0].content@.map_values(
                |q: crate::polish::ResponsesInputContent| crate::polish::responses_part_view(q),
            );
            assert(v[0].1 == parts);
            assert(parts.len() >= 1);
            assert(parts.last() == crate::polish::responses_part_view(b.input@[0].content@.last()));
            let x = crate::polish::responses_user_text(req);
            assert(x.subrange(0, (c@ + "\n\n"@).len() as int) =~= c@ + "\n\n"@);
        },
    }
}

} // verus!
