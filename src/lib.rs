//! Integer side of a small stochastic ray tracer: the PPM (P3) text format
//! that images are written in, the order in which pixels are emitted, the
//! depth-bounded bounce policy of the color integrator, and the list of
//! surfaces that makes up a scene.
pub mod ppm;
pub mod raster;
pub mod scene;
pub mod trace;
