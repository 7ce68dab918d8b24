//! Regions and result limits, and their wire spellings.
use vstd::prelude::*;

verus! {

/// One of the four regions the service reports on.
#[derive(Debug, Clone, Copy, PartialEq, Eq, Structural)]
pub enum Region {
    USCentral,
    EuropeWest,
    AsiaWest,
    AsiaEast,
}

/// The wire token of a region.
pub open spec fn region_token(r: Region) -> Seq<char> {
    match r {
        Region::USCentral => "us-central"@,
        Region::EuropeWest => "europe-west"@,
        Region::AsiaWest => "asia-west"@,
        Region::AsiaEast => "asia-east"@,
    }
}

/// The region whose wire token is `s`, if any.
pub open spec fn token_region(s: Seq<char>) -> Option<Region> {
    if s == region_token(Region::USCentral) {
        Some(Region::USCentral)
    } else if s == region_token(Region::EuropeWest) {
        Some(Region::EuropeWest)
    } else if s == region_token(Region::AsiaWest) {
        Some(Region::AsiaWest)
    } else if s == region_token(Region::AsiaEast) {
        Some(Region::AsiaEast)
    } else {
        None
    }
}

/// Distinct regions have distinct tokens.
pub proof fn lemma_region_tokens_distinct(a: Region, b: Region)
    ensures
        a != b ==> region_token(a) != region_token(b),
{
    reveal_strlit("us-central");
    reveal_strlit("europe-west");
    reveal_strlit("asia-west");
    reveal_strlit("asia-east");
    if a != b {
        assert(region_token(a)[0] != region_token(b)[0] || region_token(a)[5] != region_token(b)[5]
            || region_token(a).len() != region_token(b).len());
    }
}

/// Reading back the token of a region gives that region again.
pub proof fn lemma_region_token_round_trip(r: Region)
    ensures
        token_region(region_token(r)) == Some(r),
{
    lemma_region_tokens_distinct(r, Region::USCentral);
    lemma_region_tokens_distinct(r, Region::EuropeWest);
    lemma_region_tokens_distinct(r, Region::AsiaWest);
    lemma_region_tokens_distinct(r, Region::AsiaEast);
}

/// Every token that reads as a region is that region's token.
pub proof fn lemma_token_region_inverse(s: Seq<char>)
    ensures
        token_region(s) matches Some(r) ==> region_token(r) == s,
{
}

impl Region {
    /// The wire token of this region.
    pub fn to_string(&self) -> (r: String)
        ensures
            r@ == region_token(*self),
    {
        match self {
            Region::USCentral => String::from_str("us-central"),
            Region::EuropeWest => String::from_str("europe-west"),
            Region::AsiaWest => String::from_str("asia-west"),
            Region::AsiaEast => String::from_str("asia-east"),
        }
    }

    /// The region whose wire token is `s`; `None` for any other text.
    pub fn from_token(s: &str) -> (r: Option<Region>)
        ensures
            r == token_region(s@),
    {
        let given = String::from_str(s);
        if given == Region::USCentral.to_string() {
            Some(Region::USCentral)
        } else if given == Region::EuropeWest.to_string() {
            Some(Region::EuropeWest)
        } else if given == Region::AsiaWest.to_string() {
            Some(Region::AsiaWest)
        } else if given == Region::AsiaEast.to_string() {
            Some(Region::AsiaEast)
        } else {
            None
        }
    }
}

/// How many historical moments per region to ask for.
#[derive(Debug, Clone, Copy, PartialEq, Eq, Structural)]
pub enum Limit {
    /// An explicit count, sent as its decimal form.
    Count(i16),
    /// The server's default of ninety.
    Default,
    /// No bound.
    All,
}

/// The character of a decimal digit.
pub open spec fn digit_char(d: int) -> char {
    seq!['0', '1', '2', '3', '4', '5', '6', '7', '8', '9'][d]
}

/// The decimal digits of a natural number, most significant first.
pub open spec fn natural_decimal(n: nat) -> Seq<char>
    decreases n,
{
    if n < 10 {
        seq![digit_char(n as int)]
    } else {
        natural_decimal(n / 10).push(digit_char((n % 10) as int))
    }
}

/// The decimal form of an integer, with a leading minus sign when negative.
pub open spec fn decimal(n: int) -> Seq<char> {
    if n < 0 {
        seq!['-'] + natural_decimal((-n) as nat)
    } else {
        natural_decimal(n as nat)
    }
}

/// The value of the `limit` query parameter for a limit.
pub open spec fn limit_token(l: Limit) -> Seq<char> {
    match l {
        Limit::Count(n) => decimal(n as int),
        Limit::Default => "90"@,
        Limit::All => "NONE"@,
    }
}

fn digit_str(d: u32) -> (r: &'static str)
    requires
        d < 10,
    ensures
        r@ == seq![digit_char(d as int)],
{
    proof {
        reveal_strlit("0");
        reveal_strlit("1");
        reveal_strlit("2");
        reveal_strlit("3");
        reveal_strlit("4");
        reveal_strlit("5");
        reveal_strlit("6");
        reveal_strlit("7");
        reveal_strlit("8");
        reveal_strlit("9");
    }
    let r = match d {
        0 => "0",
        1 => "1",
        2 => "2",
        3 => "3",
        4 => "4",
        5 => "5",
        6 => "6",
        7 => "7",
        8 => "8",
        _ => "9",
    };
    assert(r@ =~= seq![digit_char(d as int)]);
    r
}

fn natural_string(n: u32) -> (r: String)
    ensures
        r@ == natural_decimal(n as nat),
    decreases n,
{
    if n < 10 {
        String::from_str(digit_str(n))
    } else {
        let head = natural_string(n / 10);
        let r = head.concat(digit_str(n % 10));
        assert(r@ =~= natural_decimal(n as nat));
        r
    }
}

/// The decimal form of `n`, as `Display` writes it.
pub fn decimal_string(n: i16) -> (r: String)
    ensures
        r@ == decimal(n as int),
{
    if n < 0 {
        let magnitude = natural_string((0 - (n as i32)) as u32);
        let r = String::from_str("-").concat(magnitude.as_str());
        proof {
            reveal_strlit("-");
        }
        assert(r@ =~= decimal(n as int));
        r
    } else {
        natural_string(n as u32)
    }
}

impl Limit {
    /// The value sent as the `limit` query parameter.
    pub fn to_param(&self) -> (r: String)
        ensures
            r@ == limit_token(*self),
    {
        match self {
            Limit::Count(n) => decimal_string(*n),
            Limit::Default => String::from_str("90"),
            Limit::All => String::from_str("NONE"),
        }
    }
}

} // verus!
