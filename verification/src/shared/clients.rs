pub mod github;
