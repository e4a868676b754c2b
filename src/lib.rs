pub mod discord;
pub mod gql;
pub mod image;
pub mod settings;
pub mod text;
