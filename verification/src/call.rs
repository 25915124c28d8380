//! Call payloads: the four bytes that select a message, then its arguments, encoded one
//! after the other in the order of the message's signature.

use crate::codec::{
    encode_account, encode_accounts, encode_bool, encode_bytes, encode_presence,
    encode_raw, encode_u128, encode_u32, encode_u64, encode_u8, wire_account, wire_accounts,
    wire_bool, wire_bytes, wire_presence, wire_u128, wire_u32, wire_u64, wire_u8, Account,
};
use vstd::prelude::*;

verus! {

/// The selector of every contract's constructor.
pub const NEW_SELECTOR: [u8; 4] = [155u8, 174u8, 157u8, 94u8];

/// The initial supply of each token of the exchange scenario: a billion, with 18 decimals.
pub const PSP22_SUPPLY: u128 = 1_000_000_000_000_000_000_000_000_000;

/// The number of decimals of each token of the exchange scenario.
pub const PSP22_DECIMALS: u8 = 18;

/// The messages that the two scenarios send.
#[derive(Clone, Copy, Debug, PartialEq, Eq)]
pub enum Message {
    /// The constructor of every contract.
    New,
    /// Toggles the stored boolean.
    Flip,
    /// Names the account that collects the exchange's fees.
    SetFeeCollector,
    /// Lets a spender take more of the caller's tokens.
    IncreaseAllowance,
    /// Adds a pair of tokens to a pool.
    AddLiquidity,
    /// Asks the factory for the pair of two tokens.
    GetPair,
    /// Asks a token for an account's balance.
    BalanceOf,
    /// Swaps an exact amount of one token along a path.
    SwapExactTokens,
}

impl Message {
    /// The selector of each message. Selectors are given, not derived.
    pub open spec fn spec_selector(self) -> Seq<u8> {
        match self {
            Message::New => seq![155u8, 174u8, 157u8, 94u8],
            Message::Flip => seq![99u8, 58u8, 165u8, 81u8],
            Message::SetFeeCollector => seq![62u8, 242u8, 5u8, 167u8],
            Message::IncreaseAllowance => seq![150u8, 214u8, 181u8, 122u8],
            Message::AddLiquidity => seq![165u8, 183u8, 213u8, 151u8],
            Message::GetPair => seq![69u8, 163u8, 192u8, 246u8],
            Message::BalanceOf => seq![101u8, 104u8, 56u8, 47u8],
            Message::SwapExactTokens => seq![175u8, 10u8, 136u8, 54u8],
        }
    }

    pub fn selector(self) -> (r: [u8; 4])
        ensures
            r@ == self.spec_selector(),
    {
        let r: [u8; 4] = match self {
            Message::New => [155u8, 174u8, 157u8, 94u8],
            Message::Flip => [99u8, 58u8, 165u8, 81u8],
            Message::SetFeeCollector => [62u8, 242u8, 5u8, 167u8],
            Message::IncreaseAllowance => [150u8, 214u8, 181u8, 122u8],
            Message::AddLiquidity => [165u8, 183u8, 213u8, 151u8],
            Message::GetPair => [69u8, 163u8, 192u8, 246u8],
            Message::BalanceOf => [101u8, 104u8, 56u8, 47u8],
            Message::SwapExactTokens => [175u8, 10u8, 136u8, 54u8],
        };
        assert(r@ =~= self.spec_selector());
        r
    }
}

/// One argument of a message.
#[derive(Clone, Debug, PartialEq, Eq)]
pub enum Arg {
    Flag(bool),
    U8(u8),
    U32(u32),
    U64(u64),
    U128(u128),
    Account(Account),
    /// A 32-byte hash, such as the reference to uploaded code.
    Hash([u8; 32]),
    /// A sequence of accounts, such as the path of a swap.
    Accounts(Vec<Account>),
    /// A text, as its bytes.
    Text(Vec<u8>),
    /// A text that may be missing.
    OptionalText(Option<Vec<u8>>),
}

impl Arg {
    /// The bytes that stand for this argument.
    pub open spec fn wire(self) -> Seq<u8> {
        match self {
            Arg::Flag(v) => wire_bool(v),
            Arg::U8(v) => wire_u8(v),
            Arg::U32(v) => wire_u32(v),
            Arg::U64(v) => wire_u64(v),
            Arg::U128(v) => wire_u128(v),
            Arg::Account(a) => wire_account(a),
            Arg::Hash(h) => h@,
            Arg::Accounts(v) => wire_accounts(v@),
            Arg::Text(t) => wire_bytes(t@),
            Arg::OptionalText(None) => wire_presence(false),
            Arg::OptionalText(Some(t)) => wire_presence(true) + wire_bytes(t@),
        }
    }

    /// A sequence or a text can be encoded if its length fits the length prefix.
    pub open spec fn encodable(self) -> bool {
        match self {
            Arg::Accounts(v) => v@.len() <= u32::MAX,
            Arg::Text(t) => t@.len() <= u32::MAX,
            Arg::OptionalText(Some(t)) => t@.len() <= u32::MAX,
            _ => true,
        }
    }

    /// Appends this argument's encoding to `out`.
    pub fn encode_to(&self, out: &mut Vec<u8>)
        requires
            self.encodable(),
        ensures
            final(out)@ == old(out)@ + self.wire(),
    {
        match self {
            Arg::Flag(v) => encode_bool(*v, out),
            Arg::U8(v) => encode_u8(*v, out),
            Arg::U32(v) => encode_u32(*v, out),
            Arg::U64(v) => encode_u64(*v, out),
            Arg::U128(v) => encode_u128(*v, out),
            Arg::Account(a) => encode_account(a, out),
            Arg::Hash(h) => encode_raw(h.as_slice(), out),
            Arg::Accounts(v) => encode_accounts(v, out),
            Arg::Text(t) => encode_bytes(t.as_slice(), out),
            Arg::OptionalText(None) => encode_presence(false, out),
            Arg::OptionalText(Some(t)) => {
                encode_presence(true, out);
                encode_bytes(t.as_slice(), out);
                assert(out@ =~= old(out)@ + (wire_presence(true) + wire_bytes(t@)));
            },
        }
    }
}

/// The encodings of `args` one after the other: no separator, no length in front.
pub open spec fn wire_args(args: Seq<Arg>) -> Seq<u8>
    decreases args.len(),
{
    if args.len() == 0 {
        Seq::empty()
    } else {
        wire_args(args.drop_last()) + args.last().wire()
    }
}

/// The payload of a call: selector, then arguments.
pub open spec fn call_payload(selector: Seq<u8>, args: Seq<Arg>) -> Seq<u8> {
    selector + wire_args(args)
}

/// Builds the payload of one call. Nothing but the selector and the arguments goes into
/// it, and the same inputs give the same bytes.
pub fn build_call(selector: [u8; 4], args: &Vec<Arg>) -> (payload: Vec<u8>)
    requires
        forall|i: int| 0 <= i < args@.len() ==> (#[trigger] args@[i]).encodable(),
    ensures
        payload@ == call_payload(selector@, args@),
{
    let mut payload: Vec<u8> = Vec::new();
    encode_raw(selector.as_slice(), &mut payload);
    assert(payload@ =~= selector@);
    let n: usize = args.len();
    let mut i: usize = 0;
    assert(selector@ + wire_args(args@.subrange(0, 0)) =~= selector@);
    while i < n
        invariant
            i <= n,
            n == args@.len(),
            forall|k: int| 0 <= k < args@.len() ==> (#[trigger] args@[k]).encodable(),
            payload@ == selector@ + wire_args(args@.subrange(0, i as int)),
        decreases n - i,
    {
        args[i].encode_to(&mut payload);
        proof {
            let next = args@.subrange(0, i + 1);
            assert(next.drop_last() =~= args@.subrange(0, i as int));
            assert(next.last() == args@[i as int]);
            assert(payload@ =~= selector@ + wire_args(next));
        }
        i = i + 1;
    }
    assert(args@.subrange(0, n as int) =~= args@);
    payload
}

/// A payload opens with its selector, whatever the arguments are.
pub proof fn lemma_payload_opens_with_selector(selector: Seq<u8>, args: Seq<Arg>)
    ensures
        call_payload(selector, args).subrange(0, selector.len() as int) == selector,
        call_payload(selector, args).skip(selector.len() as int) == wire_args(args),
{
    let payload = call_payload(selector, args);
    assert(payload.subrange(0, selector.len() as int) =~= selector);
    assert(payload.skip(selector.len() as int) =~= wire_args(args));
}

/// The arguments are encoded in order: what stands for two runs of arguments is what
/// stands for the first, then what stands for the second.
pub proof fn lemma_wire_args_in_order(first: Seq<Arg>, second: Seq<Arg>)
    ensures
        wire_args(first + second) == wire_args(first) + wire_args(second),
    decreases second.len(),
{
    if second.len() == 0 {
        assert(first + second =~= first);
        assert(wire_args(first) + wire_args(second) =~= wire_args(first));
    } else {
        let all = first + second;
        assert(all.drop_last() =~= first + second.drop_last());
        assert(all.last() == second.last());
        lemma_wire_args_in_order(first, second.drop_last());
        assert(wire_args(all) =~= wire_args(first) + wire_args(second));
    }
}

/// A single argument is encoded as itself.
pub proof fn lemma_wire_args_single(arg: Arg)
    ensures
        wire_args(seq![arg]) == arg.wire(),
{
    let one = seq![arg];
    assert(one.drop_last() =~= Seq::<Arg>::empty());
    assert(wire_args(one.drop_last()) =~= Seq::<u8>::empty());
    assert(wire_args(one) =~= arg.wire());
}

} // verus!
