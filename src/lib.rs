//! Frame pacing, device selection and the per-frame submit/present loop of a
//! small rendering program, with the decisions separated from the graphics API
//! calls that carry them out.
pub mod constants;
pub mod fps_limiter;
pub mod frame_loop;
pub mod program_proc;
pub mod resources;
pub mod share;
pub mod structures;
pub mod texture;
pub mod transform;
