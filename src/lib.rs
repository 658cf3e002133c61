//! Orchestration core of a swap router: a request is forwarded to an
//! exchange, the exchange's answer is checked, the output is delivered to its
//! destination, and funds that cannot be delivered go back to the controller.
//!
//! Every step of the chain is a function from the step's context and the
//! outcome of the previous remote call to a `Reaction`: what to call next,
//! what to schedule after it, and what to return.

pub mod factory;
pub mod gas;
pub mod laws;
pub mod payload;
pub mod saga;
pub mod types;

pub use factory::{Deployment, Factory};
pub use saga::{
    ButterCore, CallMsg, CallResult, Continuation, DeliveryContext, Effect, Fault, Notice,
    Reaction, RemoteCall, SagaContext,
};
pub use types::{
    Action, Address, CoreSwapMessage, LostFoundMessage, SwapAction, SwapData, SwapMsg, SwapParam,
    TokenReceiverMessage,
};
