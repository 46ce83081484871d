pub mod atproto;
