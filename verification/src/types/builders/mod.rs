pub mod common;
pub mod payment;

pub use common::{
    validate_account, validate_destination, BuildError, BuildErrorView, BuilderFields, TransactionBuilder,
    TransactionTypeBuilder,
};
pub use payment::{Payment, PaymentBuilder};
