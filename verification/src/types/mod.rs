pub mod account_object;
pub mod amount;
pub mod builders;
pub mod transaction;

pub use account_object::{
    AccountObject, Check, Common, DepositPreauth, Escrow, MPToken, NFTokenOffer, NFTokenPage, Offer, PayChannel,
    RippleState, SignerEntry, SignerList, Ticket,
};
pub use amount::{Amount, AmountView};
pub use builders::{
    validate_account, validate_destination, BuildError, BuildErrorView, BuilderFields, Payment, PaymentBuilder,
    TransactionBuilder, TransactionTypeBuilder,
};
pub use transaction::{
    Memo, MemoWrapper, PathStep, Signable, Signer, SignerWrapper, SigningContext, Transaction,
    TransactionType,
};
