//! Heterogeneous two-element pairs consumed as ordered collections of
//! capability views, and a small HTML page renderer built on top of them.
pub mod pair;

pub mod example;

pub mod html;

pub mod v1;

pub mod v2;

pub mod v4;
