//! Royalties of a token collection: the share of a sale price that is owed
//! to the payee named in a token's metadata.
//!
//! The percentage is fixed when the token is minted and lies between 0 and
//! 100. The amount owed is the whole part of `sale_price * percentage / 100`.

use vstd::prelude::*;
use crate::error::ContractError;

verus! {

/// One attribute of a token.
#[derive(Clone, Debug, PartialEq, Eq)]
pub struct Trait {
    pub display_type: Option<String>,
    pub trait_type: String,
    pub value: String,
}

/// The metadata that a token carries from its mint on.
#[derive(Clone, Debug, PartialEq, Eq)]
pub struct Metadata {
    pub image: Option<String>,
    pub image_data: Option<String>,
    pub external_url: Option<String>,
    pub description: Option<String>,
    pub name: Option<String>,
    pub attributes: Option<Vec<Trait>>,
    pub background_color: Option<String>,
    pub animation_url: Option<String>,
    pub youtube_url: Option<String>,
    /// The minter's cut of a sale, in percent; royalties are owed on the
    /// token where this is set.
    pub royalty_percentage: Option<u64>,
    /// Who is paid the royalty.
    pub royalty_payment_address: Option<String>,
}

impl Default for Metadata {
    fn default() -> (m: Metadata)
        ensures
            m.image is None,
            m.image_data is None,
            m.external_url is None,
            m.description is None,
            m.name is None,
            m.attributes is None,
            m.background_color is None,
            m.animation_url is None,
            m.youtube_url is None,
            m.royalty_percentage is None,
            m.royalty_payment_address is None,
    {
        Metadata {
            image: None,
            image_data: None,
            external_url: None,
            description: None,
            name: None,
            attributes: None,
            background_color: None,
            animation_url: None,
            youtube_url: None,
            royalty_percentage: None,
            royalty_payment_address: None,
        }
    }
}

/// The questions about royalties.
pub enum Cw2981QueryMsg {
    /// What is owed on a sale of the token at `sale_price`, and to whom.
    RoyaltyInfo { token_id: String, sale_price: u128 },
    /// Whether the collection pays royalties at all.
    CheckRoyalties,
}

/// Who is owed how much on a sale.
#[derive(Clone, Debug, PartialEq, Eq)]
pub struct RoyaltiesInfoResponse {
    pub address: String,
    pub royalty_amount: u128,
}

/// Whether the collection pays royalties.
#[derive(Clone, Copy, Debug, PartialEq, Eq, Structural)]
pub struct CheckRoyaltiesResponse {
    pub royalty_payments: bool,
}

/// An answer to a [`Cw2981QueryMsg`].
#[derive(Clone, Debug, PartialEq, Eq)]
pub enum QueryResponse {
    RoyaltyInfo(RoyaltiesInfoResponse),
    CheckRoyalties(CheckRoyaltiesResponse),
}

/// The percentage that the metadata sets; zero where it sets none.
pub open spec fn percentage_of(extension: Option<Metadata>) -> u64 {
    match extension {
        Some(m) => match m.royalty_percentage {
            Some(p) => p,
            None => 0,
        },
        None => 0,
    }
}

/// The payee that the metadata names; the empty text where it names none.
pub open spec fn payee_of(extension: Option<Metadata>) -> Seq<char> {
    match extension {
        Some(m) => match m.royalty_payment_address {
            Some(a) => a@,
            None => Seq::<char>::empty(),
        },
        None => Seq::<char>::empty(),
    }
}

/// The royalty on `sale_price` at `percentage` percent, fractions dropped.
pub open spec fn royalty_amount(sale_price: u128, percentage: u64) -> int {
    sale_price * percentage / 100
}

/// `Uint128::multiply_ratio` of cosmwasm_std: `amount * numerator /
/// denominator`, computed without overflow in between and floored. The
/// outside function panics where the denominator is zero or the quotient
/// does not fit 128 bits; both are left out here.
#[verifier::external_body]
fn multiply_ratio(amount: u128, numerator: u64, denominator: u64) -> (r: u128)
    requires
        denominator != 0,
        amount * numerator / (denominator as int) <= u128::MAX,
    ensures
        r == amount * numerator / (denominator as int),
{
    cosmwasm_std::Uint128::new(amount).multiply_ratio(numerator, denominator).u128()
}

/// Looks at the metadata of a mint before the mint is carried out: a royalty
/// percentage above 100 is refused, everything else passes.
pub fn execute(extension: &Option<Metadata>) -> (r: Result<(), ContractError>)
    ensures
        r == if percentage_of(*extension) > 100 {
            Err::<(), ContractError>(ContractError::InvalidRoyaltyPercentage)
        } else {
            Ok::<(), ContractError>(())
        },
{
    match extension {
        Some(m) => match m.royalty_percentage {
            Some(p) => {
                if p > 100 {
                    return Err(ContractError::InvalidRoyaltyPercentage);
                }
            },
            None => {},
        },
        None => {},
    }
    Ok(())
}

/// What is owed on a sale at `sale_price` of the token with this metadata,
/// and to whom. Metadata that no mint would have let through is refused.
pub fn query_royalties_info(extension: &Option<Metadata>, sale_price: u128) -> (r: Result<
    RoyaltiesInfoResponse,
    ContractError,
>)
    ensures
        match r {
            Ok(info) => {
                &&& percentage_of(*extension) <= 100
                &&& info.address@ == payee_of(*extension)
                &&& info.royalty_amount == royalty_amount(sale_price, percentage_of(*extension))
                &&& info.royalty_amount <= sale_price
            },
            Err(e) => e == ContractError::InvalidRoyaltyPercentage && percentage_of(*extension)
                > 100,
        },
{
    let percentage: u64 = match extension {
        Some(m) => match m.royalty_percentage {
            Some(p) => p,
            None => 0,
        },
        None => 0,
    };
    if percentage > 100 {
        return Err(ContractError::InvalidRoyaltyPercentage);
    }
    proof {
        lemma_share_bounded(sale_price as int, percentage as int);
    }
    let royalty_from_sale_price = multiply_ratio(sale_price, percentage, 100);
    let royalty_address = match extension {
        Some(m) => match &m.royalty_payment_address {
            Some(a) => a.clone(),
            None => String::new(),
        },
        None => String::new(),
    };
    Ok(RoyaltiesInfoResponse { address: royalty_address, royalty_amount: royalty_from_sale_price })
}

/// A share of at most one hundred percent is at most the whole.
pub proof fn lemma_share_bounded(amount: int, percentage: int)
    requires
        amount >= 0,
        0 <= percentage <= 100,
    ensures
        0 <= amount * percentage / 100 <= amount,
{
    assert(0 <= amount * percentage <= amount * 100) by (nonlinear_arith)
        requires
            amount >= 0,
            0 <= percentage <= 100,
    ;
    assert(amount * 100 / 100 == amount) by (nonlinear_arith);
    assert(amount * percentage / 100 <= amount * 100 / 100) by (nonlinear_arith)
        requires
            amount * percentage <= amount * 100,
    ;
    assert(0 <= amount * percentage / 100) by (nonlinear_arith)
        requires
            0 <= amount * percentage,
    ;
}

/// Whether the collection pays royalties: it always does.
pub fn check_royalties() -> (r: CheckRoyaltiesResponse)
    ensures
        r.royalty_payments,
{
    CheckRoyaltiesResponse { royalty_payments: true }
}

/// Answers a question about the token with this metadata.
pub fn query(extension: &Option<Metadata>, msg: Cw2981QueryMsg) -> (r: Result<
    QueryResponse,
    ContractError,
>)
    ensures
        match msg {
            Cw2981QueryMsg::RoyaltyInfo { token_id, sale_price } => match r {
                Ok(QueryResponse::RoyaltyInfo(info)) => {
                    &&& percentage_of(*extension) <= 100
                    &&& info.address@ == payee_of(*extension)
                    &&& info.royalty_amount == royalty_amount(
                        sale_price,
                        percentage_of(*extension),
                    )
                },
                Ok(_) => false,
                Err(e) => e == ContractError::InvalidRoyaltyPercentage && percentage_of(
                    *extension,
                ) > 100,
            },
            Cw2981QueryMsg::CheckRoyalties => r is Ok && r->Ok_0 is CheckRoyalties
                && r->Ok_0->CheckRoyalties_0.royalty_payments,
        },
{
    match msg {
        Cw2981QueryMsg::RoyaltyInfo { token_id, sale_price } => {
            match query_royalties_info(extension, sale_price) {
                Ok(info) => Ok(QueryResponse::RoyaltyInfo(info)),
                Err(e) => Err(e),
            }
        },
        Cw2981QueryMsg::CheckRoyalties => Ok(QueryResponse::CheckRoyalties(check_royalties())),
    }
}

} // verus!
