pub mod facet;
