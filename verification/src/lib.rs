//! Exploration of families of complex dynamical systems in verified
//! fixed-point arithmetic: escape-time / periodicity classification of
//! sampled regions of a parameter or dynamical plane, external-ray
//! tracing, polynomial root extraction, and interior colorings.
pub mod chebyshev;
pub mod classify;
pub mod coloring;
pub mod cover;
pub mod cplx;
pub mod escape;
pub mod family;
pub mod fix;
pub mod grid;
pub mod julia;
pub mod logexp;
pub mod mandelbrot;
pub mod quad_rat_per_4;
pub mod ray;
pub mod roots;
