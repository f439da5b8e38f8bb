use vstd::prelude::*;
use vstd::string::*;

verus! {

/// A coin as a contract sees it: a denomination and an unsigned amount.
#[derive(Clone, Debug, PartialEq, Eq)]
pub struct Coin {
    pub denom: String,
    pub amount: u128,
}

/// A coin as it travels in a chain message: the amount is written in decimal.
#[derive(Clone, Debug, PartialEq, Eq)]
pub struct ProtoCoin {
    pub denom: String,
    pub amount: String,
}

/// The character of a decimal digit.
pub open spec fn digit_char(d: nat) -> char
    recommends
        d < 10,
{
    seq!['0', '1', '2', '3', '4', '5', '6', '7', '8', '9'][d as int]
}

/// The decimal writing of `n`: most significant digit first, no leading zeros.
pub open spec fn decimal(n: nat) -> Seq<char>
    decreases n,
{
    if n < 10 {
        seq![digit_char(n)]
    } else {
        decimal(n / 10).push(digit_char(n % 10))
    }
}

/// `p` is the wire form of `c`: the same denomination, the amount in decimal.
pub open spec fn is_proto_of(p: ProtoCoin, c: Coin) -> bool {
    p.denom == c.denom && p.amount@ == decimal(c.amount as nat)
}

fn digit_text(d: u128) -> (r: &'static str)
    requires
        d < 10,
    ensures
        r@ == seq![digit_char(d as nat)],
{
    proof {
        reveal_strlit("0");
        reveal_strlit("1");
        reveal_strlit("2");
        reveal_strlit("3");
        reveal_strlit("4");
        reveal_strlit("5");
        reveal_strlit("6");
        reveal_strlit("7");
        reveal_strlit("8");
        reveal_strlit("9");
    }
    if d == 0 {
        "0"
    } else if d == 1 {
        "1"
    } else if d == 2 {
        "2"
    } else if d == 3 {
        "3"
    } else if d == 4 {
        "4"
    } else if d == 5 {
        "5"
    } else if d == 6 {
        "6"
    } else if d == 7 {
        "7"
    } else if d == 8 {
        "8"
    } else {
        "9"
    }
}

/// Writes `n` in decimal.
pub fn decimal_text(n: u128) -> (r: String)
    ensures
        r@ == decimal(n as nat),
    decreases n,
{
    if n < 10 {
        String::from_str(digit_text(n))
    } else {
        let mut s = decimal_text(n / 10);
        let last = digit_text(n % 10);
        s.append(last);
        assert(s@ =~= decimal(n as nat));
        s
    }
}

/// The wire form of one coin.
pub fn to_proto_coin(c: &Coin) -> (r: ProtoCoin)
    ensures
        is_proto_of(r, *c),
{
    ProtoCoin { denom: c.denom.clone(), amount: decimal_text(c.amount) }
}

/// The wire form of each coin, in the same order.
pub fn coins_to_proto(coins: &Vec<Coin>) -> (r: Vec<ProtoCoin>)
    ensures
        r@.len() == coins@.len(),
        forall|i: int| 0 <= i < coins@.len() ==> is_proto_of(#[trigger] r@[i], coins@[i]),
{
    let mut out: Vec<ProtoCoin> = Vec::new();
    let mut k: usize = 0;
    while k < coins.len()
        invariant
            k <= coins@.len(),
            out@.len() == k,
            forall|i: int| 0 <= i < k ==> is_proto_of(#[trigger] out@[i], coins@[i]),
        decreases coins@.len() - k,
    {
        out.push(to_proto_coin(&coins[k]));
        k = k + 1;
    }
    out
}

} // verus!
