//! Integer and decision logic of a one- and two-dimensional Schrödinger
//! equation simulator: the command-line configuration, the sample lattices of
//! the wave packet, the finite-difference operators in stencil and matrix form,
//! the quadrature weights used for normalisation, and the interactive controls.
pub mod config;
pub mod input;
pub mod lattice;
pub mod one_dim;
pub mod operators;
pub mod quadrature;
pub mod two_dim;
