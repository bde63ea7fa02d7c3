//! Request planning, response interpretation and job bookkeeping for the
//! GRSAI image provider and the text-polishing commands.

pub mod text;
pub mod json;
pub mod provider;
pub mod grsai;
pub mod media;
pub mod registry;
pub mod jobs;
pub mod polish;
pub mod clock;
pub mod laws;
