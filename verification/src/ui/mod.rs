pub mod presentation;
