use vstd::prelude::*;
use crate::records::{NftData, ProgramState};

verus! {

/// The character that stands for a decimal digit.
pub open spec fn digit_char(d: int) -> char
    recommends
        0 <= d < 10,
{
    if d == 0 {
        '0'
    } else if d == 1 {
        '1'
    } else if d == 2 {
        '2'
    } else if d == 3 {
        '3'
    } else if d == 4 {
        '4'
    } else if d == 5 {
        '5'
    } else if d == 6 {
        '6'
    } else if d == 7 {
        '7'
    } else if d == 8 {
        '8'
    } else {
        '9'
    }
}

/// A number written in decimal, without leading zeros.
pub open spec fn decimal(n: nat) -> Seq<char>
    decreases n,
{
    if n < 10 {
        seq![digit_char(n as int)]
    } else {
        decimal(n / 10).push(digit_char((n % 10) as int))
    }
}

/// The display name of an asset: the collection's name, a space, a number
/// sign, and the identifier in decimal.
pub open spec fn asset_name(collection: Seq<char>, token_id: u64) -> Seq<char> {
    collection + seq![' ', '#'] + decimal(token_id as nat)
}

/// What is attached to an issuance unit to describe its asset.
#[derive(Clone, Debug, PartialEq, Eq)]
pub struct Descriptor {
    pub name: String,
    pub symbol: String,
    pub uri: String,
    /// No fee is asked of a sale.
    pub seller_fee_basis_points: u16,
}

fn digit_str(d: u64) -> (s: &'static str)
    requires
        d < 10,
    ensures
        s@ =~= seq![digit_char(d as int)],
{
    proof {
        reveal_strlit("0");
        reveal_strlit("1");
        reveal_strlit("2");
        reveal_strlit("3");
        reveal_strlit("4");
        reveal_strlit("5");
        reveal_strlit("6");
        reveal_strlit("7");
        reveal_strlit("8");
        reveal_strlit("9");
    }
    if d == 0 {
        "0"
    } else if d == 1 {
        "1"
    } else if d == 2 {
        "2"
    } else if d == 3 {
        "3"
    } else if d == 4 {
        "4"
    } else if d == 5 {
        "5"
    } else if d == 6 {
        "6"
    } else if d == 7 {
        "7"
    } else if d == 8 {
        "8"
    } else {
        "9"
    }
}

/// Writes a number in decimal.
pub fn to_decimal(n: u64) -> (text: String)
    ensures
        text@ == decimal(n as nat),
{
    let mut text = String::from_str(digit_str(n % 10));
    let mut rest: u64 = n / 10;
    while rest > 0
        invariant
            rest > 0 ==> decimal(n as nat) =~= decimal(rest as nat) + text@,
            rest == 0 ==> decimal(n as nat) =~= text@,
        decreases rest,
    {
        let mut longer = String::from_str(digit_str(rest % 10));
        longer.append(text.as_str());
        proof {
            let d = seq![digit_char((rest % 10) as int)];
            if rest >= 10 {
                assert(decimal(rest as nat) =~= decimal((rest / 10) as nat) + d);
                assert(decimal(n as nat) =~= decimal((rest / 10) as nat) + longer@);
            } else {
                assert(decimal(rest as nat) =~= d);
            }
        }
        text = longer;
        rest = rest / 10;
    }
    text
}

impl Descriptor {
    /// Whether this is the descriptor of the asset `token_id` with URI `uri`
    /// in the collection `name` with symbol `symbol`.
    pub open spec fn describes(&self, name: String, symbol: String, token_id: u64, uri: String)
        -> bool {
        &&& self.name@ == asset_name(name@, token_id)
        &&& self.symbol == symbol
        &&& self.uri == uri
        &&& self.seller_fee_basis_points == 0
    }
}

/// The descriptor of an asset of the collection that `state` configures.
pub fn descriptor_for(state: &ProgramState, nft_data: &NftData) -> (d: Descriptor)
    ensures
        d.describes(state.name, state.symbol, nft_data.token_id, nft_data.uri),
{
    proof {
        reveal_strlit(" #");
    }
    let mut name = state.name.clone();
    name.append(" #");
    assert(" #"@ =~= seq![' ', '#']);
    let number = to_decimal(nft_data.token_id);
    name.append(number.as_str());
    Descriptor {
        name,
        symbol: state.symbol.clone(),
        uri: nft_data.uri.clone(),
        seller_fee_basis_points: 0,
    }
}

} // verus!
