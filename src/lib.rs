pub mod codec;
pub mod error;
pub mod identity;
pub mod session;
pub mod shutdown;
pub mod signer;
pub mod types;

pub use error::SdkError;
pub use identity::{recover, register, GreenlightCredentials, Identity, SchedulerGateway};
pub use session::{EstablishStep, Session, SessionEstablisher, SignerState};
pub use shutdown::{ShutdownCoordinator, ShutdownOutcome, ShutdownStep};
pub use signer::SignerTask;
pub use types::{
    AmountOrAll, CloseRequest, CloseResponse, ConnectPeerRequest, ConnectPeerResponse,
    FundChannelRequest, FundChannelResponse, GetInfoResponse, InvoiceWarnings, KeySendRequest,
    KeySendResponse, ListFundsChannel, ListFundsOutput, ListFundsRequest, ListFundsResponse,
    ListInvoicesIndex, ListInvoicesInvoice, ListInvoicesInvoicePaidOutpoint, ListInvoicesRequest,
    ListInvoicesResponse, ListPaymentsPayment, ListPaymentsRequest, ListPaymentsResponse,
    ListPaymentsStatus, MakeInvoiceRequest, MakeInvoiceResponse, NewAddressRequest,
    NewAddressResponse, NewAddressType, PayRequest, PayResponse, ShutdownResponse,
    SignMessageRequest, SignMessageResponse, TlvEntry, WithdrawRequest, WithdrawResponse,
};
