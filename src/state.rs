use vstd::prelude::*;

use crate::bytes::{bytes_eq, copy_range};

verus! {

/// The controller record: the trusted router and the bump of the
/// controller's own derived address.
pub struct Controller {
    pub bump: u8,
    pub router: Vec<u8>,
}

/// The bump and router stored in a controller account's data: the account
/// type's discriminator, then the bump byte, then the 32-byte router.
pub open spec fn controller_record_spec(data: Seq<u8>, discriminator: Seq<u8>) -> Option<
    (u8, Seq<u8>),
> {
    let d = discriminator.len() as int;
    if data.len() >= d + 33 && data.subrange(0, d) == discriminator {
        Some((data[d], data.subrange(d + 1, d + 33)))
    } else {
        None
    }
}

impl Controller {
    /// Reads the controller record from its account data, or `None` where the
    /// data is too short or does not start with `discriminator`.
    pub fn from_account_data(data: &[u8], discriminator: &[u8]) -> (r: Option<Controller>)
        ensures
            match r {
                Some(c) => controller_record_spec(data@, discriminator@) == Some((c.bump, c.router@)),
                None => controller_record_spec(data@, discriminator@) is None,
            },
    {
        let d = discriminator.len();
        if data.len() < 33 || data.len() - 33 < d {
            return None;
        }
        let prefix = copy_range(data, 0, d);
        if !bytes_eq(prefix.as_slice(), discriminator) {
            return None;
        }
        let router = copy_range(data, d + 1, d + 33);
        Some(Controller { bump: data[d], router })
    }
}

/// An amount of one token.
pub struct SVMTokenAmount {
    /// The mint address of the token.
    pub token: Vec<u8>,
    /// The amount, in the token's base units.
    pub amount: u64,
}

/// An inbound cross-chain message, as delivered by the relay layer.
pub struct Any2SVMMessage {
    /// Unique identifier of the cross-chain message.
    pub message_id: Vec<u8>,
    /// Identifier of the source chain.
    pub source_chain_selector: u64,
    /// Address of the sender on the source chain.
    pub sender: Vec<u8>,
    /// Selector byte followed by the encoded payload.
    pub data: Vec<u8>,
    /// Token transfers carried with the message.
    pub token_amounts: Vec<SVMTokenAmount>,
}

/// An outbound cross-chain message, handed to the relay layer.
pub struct SVM2AnyMessage {
    pub receiver: Vec<u8>,
    pub data: Vec<u8>,
    pub token_amounts: Vec<SVMTokenAmount>,
    pub fee_token: Vec<u8>,
    pub extra_args: Vec<u8>,
}

/// Payload of a wrap request: mint wrapped tokens of `underlying_token` to `to`.
pub struct WrapParams {
    pub name: String,
    pub symbol: String,
    pub underlying_token: Vec<u8>,
    pub to: Vec<u8>,
    pub amount: u128,
}

/// Payload of an unwrap request: release `underlying_token` to `to`.
pub struct UnwrapParams {
    pub underlying_token: Vec<u8>,
    pub to: Vec<u8>,
    pub amount: u128,
}

impl View for WrapParams {
    type V = (Seq<char>, Seq<char>, Seq<u8>, Seq<u8>, u128);

    open spec fn view(&self) -> Self::V {
        (self.name@, self.symbol@, self.underlying_token@, self.to@, self.amount)
    }
}

impl View for UnwrapParams {
    type V = (Seq<u8>, Seq<u8>, u128);

    open spec fn view(&self) -> Self::V {
        (self.underlying_token@, self.to@, self.amount)
    }
}

} // verus!
