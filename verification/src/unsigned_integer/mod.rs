pub mod element;
