//! A read-only hex-dump viewer library: the layout, scrolling and
//! rendering logic for displaying a binary file as fixed-width rows of
//! hexadecimal byte pairs with an address gutter.

pub mod binary_file;
pub mod hex_digits;
pub mod layout;
pub mod view;
