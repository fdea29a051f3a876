use vstd::prelude::*;

verus! {

/// The ledger networks an indexer can serve.
#[derive(Debug, Clone, Copy, PartialEq, Eq, Structural)]
pub enum NetworkId {
    Undeployed,
    DevNet,
    TestNet,
    MainNet,
}

impl NetworkId {
    /// The one-byte code of the network.
    pub open spec fn spec_code(self) -> u8 {
        match self {
            NetworkId::Undeployed => 0,
            NetworkId::DevNet => 1,
            NetworkId::TestNet => 2,
            NetworkId::MainNet => 3,
        }
    }

    pub fn code(self) -> (r: u8)
        ensures
            r == self.spec_code(),
    {
        match self {
            NetworkId::Undeployed => 0,
            NetworkId::DevNet => 1,
            NetworkId::TestNet => 2,
            NetworkId::MainNet => 3,
        }
    }
}

/// Decimal digit of a number below ten.
pub open spec fn digit_char(d: nat) -> char
    recommends
        d < 10,
{
    (('0' as u32) + d) as char
}

/// Decimal notation of a natural number, without leading zeros.
pub open spec fn decimal(n: nat) -> Seq<char>
    decreases n,
{
    if n < 10 {
        seq![digit_char(n)]
    } else {
        decimal(n / 10).push(digit_char(n % 10))
    }
}

} // verus!
