//! Plain-value core of a self-gravitating SPH gas simulation: neighbour
//! selection and gathering, the ensemble's state, the checks that end a run,
//! the observer's change detection and pixel-buffer filling.
pub mod checks;
pub mod constants;
pub mod ensemble;
pub mod neighbors;
pub mod observe;
pub mod raster;
