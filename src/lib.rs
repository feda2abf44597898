pub mod auth;
pub mod env;
pub mod error;
pub mod pets;
pub mod session;
pub mod users;
pub mod vets;

pub use auth::{LoginForm, LoginParams};
pub use env::{from_str, Env};
pub use error::AppError;
pub use pets::{types, Pet, PetForm, PetType};
pub use users::{authenticate, check_credentials, session_key, User};
pub use vets::{Vet, VetForm};
