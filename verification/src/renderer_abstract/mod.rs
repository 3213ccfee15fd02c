pub mod abstract_renderer;
