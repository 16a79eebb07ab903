//! Price-oracle records as plain values, and the two oracle computations the
//! liquidation engine relies on: reading a fresh, fully verified price out
//! of a posted update, and turning a feed's hexadecimal name into its
//! identifier.

use anchor_lang::prelude::Pubkey;
use pyth_solana_receiver_sdk::error::GetPriceError;
use vstd::prelude::*;
use vstd::string::StringSliceAdditionalSpecFns;
use vstd::utf8::{encode_utf8, is_char_boundary};

verus! {

/// `pyth_solana_receiver_sdk::error::GetPriceError`, the failure type of
/// the oracle SDK. The library never looks inside one: a feed name that
/// the SDK refuses is simply not a feed name.
#[verifier::external_type_specification]
#[verifier::external_body]
pub struct ExGetPriceError(GetPriceError);

/// How thoroughly a price update was checked before it was posted.
#[derive(Clone, Copy, Debug, PartialEq, Eq)]
pub enum VerificationLevel {
    /// Only `num_signatures` guardian signatures were checked.
    Partial { num_signatures: u8 },
    /// Two thirds of the guardians' signatures were checked.
    Full,
}

/// One price message of a feed.
#[derive(Clone, Copy, Debug, PartialEq, Eq)]
pub struct PriceFeedMessage {
    pub feed_id: [u8; 32],
    pub price: i64,
    pub conf: u64,
    pub exponent: i32,
    /// When this price was published, in seconds.
    pub publish_time: i64,
    pub prev_publish_time: i64,
    pub ema_price: i64,
    pub ema_conf: u64,
}

/// A posted price update.
#[derive(Clone, Copy, Debug, PartialEq, Eq)]
pub struct PriceUpdate {
    pub write_authority: Pubkey,
    pub verification_level: VerificationLevel,
    pub price_message: PriceFeedMessage,
    pub posted_slot: u64,
}

/// A price: `(price ± conf) * 10^exponent` as of `publish_time`.
#[derive(Clone, Copy, Debug, PartialEq, Eq, Structural)]
pub struct Price {
    pub price: i64,
    pub conf: u64,
    pub exponent: i32,
    pub publish_time: i64,
}

/// Why a price update yields no price.
#[derive(Clone, Copy, Debug, PartialEq, Eq, Structural)]
pub enum PriceError {
    /// The update was published more than the allowed age ago.
    PriceTooOld,
    /// The update is for another feed.
    MismatchedFeedId,
    /// The update is not fully verified.
    InsufficientVerificationLevel,
}

/// The last moment at which a price published at `publish_time` is still no
/// older than `maximum_age` seconds; the sum stops at the largest timestamp.
pub open spec fn fresh_until(publish_time: i64, maximum_age: u64) -> int {
    if publish_time + maximum_age > i64::MAX {
        i64::MAX as int
    } else {
        publish_time + maximum_age
    }
}

/// The price that `update` yields for `feed_id` at time `now`: the update
/// must be fully verified, be for that feed, and be fresh; the first of
/// these that fails is the error.
pub open spec fn price_no_older_than(
    update: PriceUpdate,
    now: i64,
    maximum_age: u64,
    feed_id: Seq<u8>,
) -> Result<Price, PriceError> {
    if !(update.verification_level is Full) {
        Err(PriceError::InsufficientVerificationLevel)
    } else if update.price_message.feed_id@ != feed_id {
        Err(PriceError::MismatchedFeedId)
    } else if fresh_until(update.price_message.publish_time, maximum_age) < now {
        Err(PriceError::PriceTooOld)
    } else {
        Ok(
            Price {
                price: update.price_message.price,
                conf: update.price_message.conf,
                exponent: update.price_message.exponent,
                publish_time: update.price_message.publish_time,
            },
        )
    }
}

/// Whether two feed identifiers are the same.
pub fn same_feed(a: &[u8; 32], b: &[u8; 32]) -> (r: bool)
    ensures
        r == (a@ == b@),
{
    let mut i: usize = 0;
    while i < 32
        invariant
            i <= 32,
            forall|k: int| 0 <= k < i ==> a@[k] == b@[k],
        decreases 32 - i,
    {
        if a[i] != b[i] {
            return false;
        }
        i = i + 1;
    }
    assert(a@ =~= b@);
    true
}

/// Reads the price of `feed_id` out of `update`, refusing an update that is
/// not fully verified, is for another feed, or was published more than
/// `maximum_age` seconds before `now`. The rule is that of
/// `PriceUpdateV2::get_price_no_older_than` in `pyth_solana_receiver_sdk`,
/// stated over plain values; like it, this function takes no age beyond
/// the largest timestamp.
pub fn get_price_no_older_than(
    update: &PriceUpdate,
    now: i64,
    maximum_age: u64,
    feed_id: &[u8; 32],
) -> (r: Result<Price, PriceError>)
    requires
        maximum_age <= i64::MAX,
    ensures
        r == price_no_older_than(*update, now, maximum_age, feed_id@),
{
    match update.verification_level {
        VerificationLevel::Partial { .. } => {
            return Err(PriceError::InsufficientVerificationLevel);
        },
        VerificationLevel::Full => {},
    }
    let message = &update.price_message;
    if !same_feed(&message.feed_id, feed_id) {
        return Err(PriceError::MismatchedFeedId);
    }
    let limit: i64 = match message.publish_time.checked_add(maximum_age as i64) {
        Some(t) => t,
        None => i64::MAX,
    };
    if limit < now {
        return Err(PriceError::PriceTooOld);
    }
    Ok(
        Price {
            price: message.price,
            conf: message.conf,
            exponent: message.exponent,
            publish_time: message.publish_time,
        },
    )
}

/// The feed identifier that
/// `pyth_solana_receiver_sdk::price_update::get_feed_id_from_hex` reads out
/// of a feed's hexadecimal name, if it reads one.
pub uninterp spec fn feed_id_of_hex(input: Seq<char>) -> Option<Seq<u8>>;

/// Calls `pyth_solana_receiver_sdk::price_update::get_feed_id_from_hex`.
/// Trusted: whether it yields an identifier, and which, depends on the
/// characters of the name alone. The SDK cuts a name of 66 bytes after its
/// second byte, so a character must end there.
#[verifier::external_body]
fn get_feed_id_from_hex(input: &str) -> (r: Result<[u8; 32], GetPriceError>)
    requires
        input.spec_bytes().len() as usize == 66 ==> is_char_boundary(input.spec_bytes(), 2),
    ensures
        r is Ok <==> feed_id_of_hex(input@) is Some,
        r matches Ok(id) ==> feed_id_of_hex(input@) == Some(id@),
{
    pyth_solana_receiver_sdk::price_update::get_feed_id_from_hex(input)
}

/// The identifier that a feed name stands for. A 66-byte name whose third
/// byte does not start a character cannot be cut after its prefix and
/// stands for none.
pub open spec fn feed_id_of_name(name: Seq<char>) -> Option<Seq<u8>> {
    let bytes = encode_utf8(name);
    if bytes.len() as usize == 66 && !is_char_boundary(bytes, 2) {
        None
    } else {
        feed_id_of_hex(name)
    }
}

/// Turns a feed's hexadecimal name, with or without a two-character
/// prefix, into its identifier.
pub fn parse_feed_id(name: &str) -> (r: Option<[u8; 32]>)
    ensures
        r is Some <==> feed_id_of_name(name@) is Some,
        r matches Some(id) ==> feed_id_of_name(name@) == Some(id@),
{
    if name.len() == 66 && !name.is_char_boundary(2) {
        return None;
    }
    match get_feed_id_from_hex(name) {
        Ok(id) => Some(id),
        Err(_) => None,
    }
}

} // verus!
