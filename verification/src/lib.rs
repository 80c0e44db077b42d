//! A batch CAD-drawing transformation engine: given a drawing's entity model
//! and a named operation, it applies one mutation pass over the entities and
//! derives the path of the output file. Reading and writing the drawing file
//! itself is the caller's business; the engine works on the plain entity
//! model and is verified end to end.

pub mod envelope;
pub mod factory;
pub mod laws;
pub mod model;
pub mod params;
pub mod paths;
pub mod processors;
pub mod text;
