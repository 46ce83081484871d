pub mod bsky;
