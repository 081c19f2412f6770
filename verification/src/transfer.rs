//! Transfers: what a caller asks for, the message that is signed for it,
//! and what is handed back.

use vstd::prelude::*;
use vstd::string::StringExecFns;

verus! {

/// A recent block hash of the chain and how long it stays valid.
#[derive(Debug, PartialEq, Eq)]
pub struct SolanaBlockhash {
    pub blockhash: String,
    pub last_valid_block_height: u64,
}

/// A transfer that is ready to be signed.
#[derive(Debug, PartialEq, Eq)]
pub struct PreparedTransaction {
    pub base64_message: String,
    pub blockhash: String,
    pub last_valid_block_height: u64,
    pub sender_pubkey: String,
    pub receiver_pubkey: String,
    pub amount_lamports: u64,
}

/// What a caller asks to be transferred, and to whom.
#[derive(Debug, PartialEq, Eq)]
pub struct SendTransactionRequest {
    pub to_address: String,
    pub amount_lamports: u64,
}

/// A transfer with its signature.
#[derive(Debug, PartialEq, Eq)]
pub struct SignedTransactionResponse {
    pub transaction_base64: String,
    pub signature_hex: String,
    pub from_address: String,
    pub to_address: String,
    pub amount_lamports: u64,
}

/// The decimal digit of a value below ten.
pub open spec fn digit_char(digit: int) -> char {
    seq!['0', '1', '2', '3', '4', '5', '6', '7', '8', '9'][digit]
}

/// The decimal text of a number, without leading zeros.
pub open spec fn decimal_text(n: nat) -> Seq<char>
    decreases n,
{
    if n < 10 {
        seq![digit_char(n as int)]
    } else {
        decimal_text(n / 10).push(digit_char((n % 10) as int))
    }
}

/// The message that is signed for a transfer: a JSON object that names the
/// sender, the recipient, the amount and the time, in this order.
pub open spec fn transfer_message(
    from: Seq<char>,
    to: Seq<char>,
    amount: u64,
    timestamp: u64,
) -> Seq<char> {
    "{\"from\":\""@ + from + "\",\"to\":\""@ + to + "\",\"amount\":"@ + decimal_text(amount as nat)
        + ",\"timestamp\":"@ + decimal_text(timestamp as nat) + "}"@
}

/// The decimal digit of a value below ten, as text.
fn digit_str(digit: u64) -> (text: &'static str)
    requires
        digit < 10,
    ensures
        text@ == seq![digit_char(digit as int)],
{
    proof {
        reveal_strlit("0");
        reveal_strlit("1");
        reveal_strlit("2");
        reveal_strlit("3");
        reveal_strlit("4");
        reveal_strlit("5");
        reveal_strlit("6");
        reveal_strlit("7");
        reveal_strlit("8");
        reveal_strlit("9");
    }
    let text = match digit {
        0 => "0",
        1 => "1",
        2 => "2",
        3 => "3",
        4 => "4",
        5 => "5",
        6 => "6",
        7 => "7",
        8 => "8",
        _ => "9",
    };
    assert(text@ =~= seq![digit_char(digit as int)]);
    text
}

/// The decimal text of a number, without leading zeros.
pub fn decimal_string(n: u64) -> (text: String)
    ensures
        text@ == decimal_text(n as nat),
{
    let mut text = String::from_str(digit_str(n % 10));
    let mut rest: u64 = n / 10;
    assert(decimal_text(n as nat) =~= (if rest > 0 {
        decimal_text(rest as nat)
    } else {
        Seq::<char>::empty()
    }) + text@);
    while rest > 0
        invariant
            decimal_text(n as nat) == (if rest > 0 {
                decimal_text(rest as nat)
            } else {
                Seq::<char>::empty()
            }) + text@,
        decreases rest,
    {
        let ghost tail = text@;
        text = String::from_str(digit_str(rest % 10)).concat(text.as_str());
        let ghost head = decimal_text(rest as nat);
        rest = rest / 10;
        assert(head + tail =~= (if rest > 0 {
            decimal_text(rest as nat)
        } else {
            Seq::<char>::empty()
        }) + text@);
    }
    text
}

/// The message that is signed for a transfer.
pub fn transfer_message_text(from: &str, to: &str, amount: u64, timestamp: u64) -> (message:
    String)
    ensures
        message@ == transfer_message(from@, to@, amount, timestamp),
{
    let mut message = String::from_str("{\"from\":\"");
    message.append(from);
    message.append("\",\"to\":\"");
    message.append(to);
    message.append("\",\"amount\":");
    message.append(decimal_string(amount).as_str());
    message.append(",\"timestamp\":");
    message.append(decimal_string(timestamp).as_str());
    message.append("}");
    message
}

} // verus!
