//! Commands of the staking command-line client.
use vstd::prelude::*;
use vstd::string::StrSliceExecFns;

verus! {

/// A command of the client.
#[derive(Clone, Copy, Debug, PartialEq, Eq)]
pub enum NezCommand {
    Deposit,
    Withdraw,
    StakedBalance,
    WalletBalance,
}

/// The name of a command on the command line.
pub open spec fn command_name(c: NezCommand) -> Seq<char> {
    match c {
        NezCommand::Deposit => "deposit"@,
        NezCommand::Withdraw => "withdraw"@,
        NezCommand::StakedBalance => "staked-balance"@,
        NezCommand::WalletBalance => "wallet-balance"@,
    }
}

/// Whether two texts are the same, character by character.
fn same_text(a: &str, b: &str) -> (r: bool)
    ensures
        r == (a@ == b@),
{
    let n = a.unicode_len();
    if n != b.unicode_len() {
        return false;
    }
    let mut i: usize = 0;
    while i < n
        invariant
            i <= n,
            n == a@.len(),
            n == b@.len(),
            forall|k: int| 0 <= k < i ==> a@[k] == b@[k],
        decreases n - i,
    {
        if a.get_char(i) != b.get_char(i) {
            return false;
        }
        i = i + 1;
    }
    assert(a@ =~= b@);
    true
}

impl NezCommand {
    /// The name of the command.
    pub fn as_str(&self) -> (r: &'static str)
        ensures
            r@ == command_name(*self),
    {
        match self {
            NezCommand::Deposit => "deposit",
            NezCommand::Withdraw => "withdraw",
            NezCommand::StakedBalance => "staked-balance",
            NezCommand::WalletBalance => "wallet-balance",
        }
    }

    /// The command with the given name, if any.
    pub fn parse(s: &str) -> (r: Option<NezCommand>)
        ensures
            match r {
                Some(c) => command_name(c) == s@,
                None => forall|c: NezCommand| command_name(c) != s@,
            },
    {
        if same_text(s, "deposit") {
            Some(NezCommand::Deposit)
        } else if same_text(s, "withdraw") {
            Some(NezCommand::Withdraw)
        } else if same_text(s, "staked-balance") {
            Some(NezCommand::StakedBalance)
        } else if same_text(s, "wallet-balance") {
            Some(NezCommand::WalletBalance)
        } else {
            proof {
                assert forall|c: NezCommand| command_name(c) != s@ by {
                    match c {
                        NezCommand::Deposit => {},
                        NezCommand::Withdraw => {},
                        NezCommand::StakedBalance => {},
                        NezCommand::WalletBalance => {},
                    }
                }
            }
            None
        }
    }
}

/// Reading back the name of a command gives the command.
pub proof fn lemma_command_name_round_trip(c: NezCommand, d: NezCommand)
    ensures
        command_name(c) == command_name(d) <==> c == d,
{
    reveal_strlit("deposit");
    reveal_strlit("withdraw");
    reveal_strlit("staked-balance");
    reveal_strlit("wallet-balance");
    if command_name(c) == command_name(d) && c != d {
        assert(command_name(c)[0] != command_name(d)[0] || command_name(c).len() != command_name(
            d,
        ).len());
    }
}

} // verus!
