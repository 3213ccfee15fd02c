pub mod stencil;
