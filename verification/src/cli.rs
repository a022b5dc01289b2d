//! Decisions of the wallet command line's `connect` and `send` commands.

use vstd::prelude::*;

verus! {

/// The texts of a list of arguments.
pub open spec fn texts(v: Seq<String>) -> Seq<Seq<char>> {
    v.map_values(|s: String| s@)
}

pub open spec fn text_opt(o: Option<String>) -> Option<Seq<char>> {
    match o {
        Some(s) => Some(s@),
        None => None,
    }
}

fn text_is(s: &String, lit: &str) -> (b: bool)
    ensures
        b == (s@ == lit@),
{
    let owned = lit.to_owned();
    *s == owned
}

// ---------------------------------------------------------------------------
// connect
// ---------------------------------------------------------------------------

/// The `connect` command: connect to a Spectre network (mainnet or testnet).
pub struct Connect;

impl Default for Connect {
    fn default() -> (c: Connect)
        ensures
            c == Connect,
    {
        Connect
    }
}

/// Where `connect` goes.
pub enum ConnectTarget {
    /// A public node, because the user asked for one.
    PublicNode,
    /// A public node, because no server was given nor configured.
    NoServerSet,
    /// The server at this address.
    Server(String),
}

/// The server the user names: the first argument, else the configured one.
pub open spec fn requested_server(argv: Seq<Seq<char>>, setting: Option<Seq<char>>) -> Option<Seq<char>> {
    if argv.len() > 0 {
        Some(argv[0])
    } else {
        setting
    }
}

/// Words that ask for a public node in place of a server address.
pub open spec fn is_public_keyword(a: Seq<char>) -> bool {
    a == "public"@ || a == "resolver"@
}

impl Connect {
    /// Chooses where to connect, from the command's arguments and the server
    /// configured in the wallet's settings.
    pub fn target(&self, argv: &Vec<String>, server_setting: Option<String>) -> (t: ConnectTarget)
        ensures
            argv.len() > 0 && (argv@[0]@ == "public"@ || argv@[0]@ == "resolver"@) ==> t is PublicNode,
            argv.len() > 0 && !(argv@[0]@ == "public"@ || argv@[0]@ == "resolver"@) ==> (t matches ConnectTarget::Server(url) && url@ == argv@[0]@),
            argv.len() == 0 && server_setting is None ==> t is NoServerSet,
            match requested_server(texts(argv@), text_opt(server_setting)) {
                None => t is NoServerSet,
                Some(a) => if is_public_keyword(a) {
                    t is PublicNode
                } else {
                    t matches ConnectTarget::Server(url) && url@ == a
                },
            },
    {
        let chosen = if argv.len() > 0 {
            Some(argv[0].clone())
        } else {
            server_setting
        };
        match chosen {
            None => ConnectTarget::NoServerSet,
            Some(a) => {
                if text_is(&a, "public") || text_is(&a, "resolver") {
                    ConnectTarget::PublicNode
                } else {
                    ConnectTarget::Server(a)
                }
            },
        }
    }
}

/// Note shown whenever a public node is used.
pub open spec fn privacy_notice_text() -> Seq<char> {
    "Please note that public node infrastructure is community-operated and accessing it may expose your IP address to different node providers. Consider running your own node for enhanced privacy."@
}

impl ConnectTarget {
    /// The line announcing a public node, if the target is one.
    pub fn announcement(&self) -> (line: Option<&'static str>)
        ensures
            match self {
                ConnectTarget::PublicNode => line matches Some(l) && l@ == "Connecting to a public node"@,
                ConnectTarget::NoServerSet => line matches Some(l) && l@
                    == "No server set, connecting to a public node"@,
                ConnectTarget::Server(_) => line is None,
            },
    {
        match self {
            ConnectTarget::PublicNode => Some("Connecting to a public node"),
            ConnectTarget::NoServerSet => Some("No server set, connecting to a public node"),
            ConnectTarget::Server(_) => None,
        }
    }

    /// Whether the privacy note is shown: for a public node, not for a server.
    pub fn shows_privacy_notice(&self) -> (b: bool)
        ensures
            b == !(self is Server),
    {
        match self {
            ConnectTarget::Server(_) => false,
            _ => true,
        }
    }

    /// The privacy note.
    pub fn privacy_notice() -> (text: &'static str)
        ensures
            text@ == privacy_notice_text(),
    {
        "Please note that public node infrastructure is community-operated and accessing it may expose your IP address to different node providers. Consider running your own node for enhanced privacy."
    }
}

// ---------------------------------------------------------------------------
// send
// ---------------------------------------------------------------------------

/// The `send` command: send a Spectre transaction to a public address.
pub struct Send;

impl Default for Send {
    fn default() -> (s: Send)
        ensures
            s == Send,
    {
        Send
    }
}

/// The amount argument of `send`.
pub enum AmountArg {
    /// `--send-all`: the whole mature balance, less the fees.
    SendAll,
    /// An amount, still to be parsed.
    Amount(String),
}

/// What `send` was asked to do.
pub enum SendCommand {
    /// Too few arguments: show the usage line.
    Usage,
    Transfer { address: String, amount: AmountArg, priority_fee: Option<String> },
}

/// Why `send` stopped.
#[derive(Clone, Copy, Debug, PartialEq, Eq, Structural)]
pub enum SendError {
    BalanceUnavailable,
    InsufficientFundsForFee,
    InsufficientFundsForPriorityFee,
}

/// The argument that asks to send the whole balance.
pub open spec fn send_all_flag() -> Seq<char> {
    "--send-all"@
}

/// The priority fee as an unsigned amount; a negative fee counts as none.
pub open spec fn priority_fee_amount(priority_fee_sompi: i64) -> int {
    if priority_fee_sompi >= 0 {
        priority_fee_sompi as int
    } else {
        0
    }
}

/// What is sent with `--send-all`: the mature balance less the estimated
/// fees, then less the priority fee, each of which must be covered.
pub open spec fn send_all_outcome(mature: u64, aggregated_fees: u64, priority_fee_sompi: i64) -> Result<
    u64,
    SendError,
> {
    if mature < aggregated_fees {
        Err(SendError::InsufficientFundsForFee)
    } else if mature - aggregated_fees < priority_fee_amount(priority_fee_sompi) {
        Err(SendError::InsufficientFundsForPriorityFee)
    } else {
        Ok((mature - aggregated_fees - priority_fee_amount(priority_fee_sompi)) as u64)
    }
}

impl Send {
    /// The usage line.
    pub fn usage() -> (text: &'static str)
        ensures
            text@ == "Usage: send <address> <amount|--send-all> <priority fee>"@,
    {
        "Usage: send <address> <amount|--send-all> <priority fee>"
    }

    /// Reads the arguments: address, amount or `--send-all`, and an optional
    /// priority fee.
    pub fn command(&self, argv: &Vec<String>) -> (c: SendCommand)
        ensures
            argv.len() < 2 ==> c is Usage,
            argv.len() >= 2 ==> (c matches SendCommand::Transfer { address, amount, priority_fee } && {
                &&& address@ == argv@[0]@
                &&& (argv@[1]@ == send_all_flag()) ==> amount is SendAll
                &&& (argv@[1]@ != send_all_flag()) ==> (amount matches AmountArg::Amount(a) && a@ == argv@[1]@)
                &&& argv.len() > 2 ==> (priority_fee matches Some(p) && p@ == argv@[2]@)
                &&& argv.len() == 2 ==> priority_fee is None
            }),
    {
        if argv.len() < 2 {
            return SendCommand::Usage;
        }
        let address = argv[0].clone();
        let amount = if text_is(&argv[1], "--send-all") {
            AmountArg::SendAll
        } else {
            AmountArg::Amount(argv[1].clone())
        };
        let priority_fee = if argv.len() > 2 {
            Some(argv[2].clone())
        } else {
            None
        };
        SendCommand::Transfer { address, amount, priority_fee }
    }

    /// Amount sent by `--send-all`, from the mature balance, the estimated
    /// fees of sending it all, and the priority fee.
    pub fn send_all_amount(mature: u64, aggregated_fees: u64, priority_fee_sompi: i64) -> (r: Result<
        u64,
        SendError,
    >)
        ensures
            r == send_all_outcome(mature, aggregated_fees, priority_fee_sompi),
    {
        let after_fees = match mature.checked_sub(aggregated_fees) {
            Some(v) => v,
            None => return Err(SendError::InsufficientFundsForFee),
        };
        let priority: u64 = if priority_fee_sompi >= 0 {
            priority_fee_sompi as u64
        } else {
            0
        };
        match after_fees.checked_sub(priority) {
            Some(v) => Ok(v),
            None => Err(SendError::InsufficientFundsForPriorityFee),
        }
    }
}

/// The text shown for a `send` error.
pub open spec fn send_error_text(e: SendError) -> Seq<char> {
    match e {
        SendError::BalanceUnavailable => "Failed to retrieve account balance"@,
        SendError::InsufficientFundsForFee => "Insufficient funds to cover the transaction fee."@,
        SendError::InsufficientFundsForPriorityFee => "Insufficient funds to cover the priority fee."@,
    }
}

impl SendError {
    /// The text shown for this error.
    pub fn message(&self) -> (text: &'static str)
        ensures
            text@ == send_error_text(*self),
    {
        match self {
            SendError::BalanceUnavailable => "Failed to retrieve account balance",
            SendError::InsufficientFundsForFee => "Insufficient funds to cover the transaction fee.",
            SendError::InsufficientFundsForPriorityFee => "Insufficient funds to cover the priority fee.",
        }
    }
}


/// The first argument, when there is one, decides where `connect` goes,
/// whatever server is configured; the configured server counts only when no
/// argument is given. `public` and `resolver`, and only they, ask for a
/// public node.
pub proof fn lemma_argument_before_setting(argv: Seq<Seq<char>>, setting: Option<Seq<char>>, a: Seq<char>)
    ensures
        argv.len() > 0 ==> requested_server(argv, setting) == Some(argv[0]),
        argv.len() == 0 ==> requested_server(argv, setting) == setting,
        is_public_keyword(a) <==> (a == "public"@ || a == "resolver"@),
{
}

/// What `--send-all` sends is exactly the mature balance less the estimated
/// fees and less the priority fee (a negative one counting as none); it is
/// refused for the fees exactly when they exceed the balance, and for the
/// priority fee exactly when the rest does not cover it.
pub proof fn lemma_send_all_accounting(mature: u64, aggregated_fees: u64, priority_fee_sompi: i64)
    ensures
        send_all_outcome(mature, aggregated_fees, priority_fee_sompi) matches Ok(v) ==> v + aggregated_fees
            + (if priority_fee_sompi >= 0 { priority_fee_sompi as int } else { 0int }) == mature,
        (send_all_outcome(mature, aggregated_fees, priority_fee_sompi) == Err::<u64, SendError>(
            SendError::InsufficientFundsForFee,
        )) <==> mature < aggregated_fees,
        (send_all_outcome(mature, aggregated_fees, priority_fee_sompi) == Err::<u64, SendError>(
            SendError::InsufficientFundsForPriorityFee,
        )) <==> (mature >= aggregated_fees && mature - aggregated_fees < (if priority_fee_sompi
            >= 0 {
            priority_fee_sompi as int
        } else {
            0int
        })),
        send_all_outcome(mature, aggregated_fees, priority_fee_sompi) is Ok || send_all_outcome(
            mature,
            aggregated_fees,
            priority_fee_sompi,
        ) == Err::<u64, SendError>(SendError::InsufficientFundsForFee) || send_all_outcome(
            mature,
            aggregated_fees,
            priority_fee_sompi,
        ) == Err::<u64, SendError>(SendError::InsufficientFundsForPriorityFee),
{
}

} // verus!
