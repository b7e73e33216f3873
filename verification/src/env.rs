//! Plain values that the host hands to the ledger and takes back from it.

use vstd::prelude::*;
use vstd::std_specs::cmp::PartialEqSpecImpl;
use cosmwasm_std::CosmosMsg;

verus! {

/// A validated account address.
#[derive(Debug)]
pub struct Addr {
    text: String,
}

impl View for Addr {
    type V = Seq<char>;

    closed spec fn view(&self) -> Seq<char> {
        self.text@
    }
}

impl DeepView for Addr {
    type V = Seq<char>;

    open spec fn deep_view(&self) -> Seq<char> {
        self@
    }
}

impl Addr {
    /// Takes `input` as an address without validating it.
    pub fn unchecked(input: &str) -> (r: Addr)
        ensures
            r@ == input@,
    {
        Addr { text: input.to_owned() }
    }

    /// The text of the address.
    pub fn as_str(&self) -> (r: &str)
        ensures
            r@ == self@,
    {
        self.text.as_str()
    }

    /// The text of the address, as the string that holds it.
    pub fn as_string(&self) -> (r: &String)
        ensures
            r@ == self@,
    {
        &self.text
    }

    /// The text of the address, without the address.
    pub fn into_string(self) -> (r: String)
        ensures
            r@ == self@,
    {
        self.text
    }
}

impl Clone for Addr {
    fn clone(&self) -> (r: Addr)
        ensures
            r@ == self@,
    {
        Addr { text: self.text.clone() }
    }
}

impl PartialEq for Addr {
    fn eq(&self, other: &Addr) -> (r: bool) {
        self.text == other.text
    }
}

impl PartialEqSpecImpl for Addr {
    open spec fn obeys_eq_spec() -> bool {
        true
    }

    open spec fn eq_spec(&self, other: &Addr) -> bool {
        self@ == other@
    }
}

impl Eq for Addr {

}

/// A point in time, in nanoseconds since the epoch.
#[derive(Clone, Copy, Debug, PartialEq, Eq, Structural)]
pub struct Timestamp(pub u64);

impl Timestamp {
    /// The point in time that lies `nanos` nanoseconds after the epoch.
    pub fn from_nanos(nanos: u64) -> (r: Timestamp)
        ensures
            r.0 == nanos,
    {
        Timestamp(nanos)
    }

    /// The nanoseconds since the epoch.
    pub fn nanos(&self) -> (r: u64)
        ensures
            r == self.0,
    {
        self.0
    }
}

/// The block in which the current call runs.
#[derive(Clone, Copy, Debug, PartialEq, Eq, Structural)]
pub struct BlockInfo {
    pub height: u64,
    pub time: Timestamp,
}

/// What the host tells of the surroundings of a call.
#[derive(Clone, Copy, Debug, PartialEq, Eq, Structural)]
pub struct Env {
    pub block: BlockInfo,
}

/// A condition after which a grant is no longer honored.
#[derive(Clone, Copy, Debug, PartialEq, Eq, Structural)]
pub enum Expiration {
    /// Reached once the block height is at least this height.
    AtHeight(u64),
    /// Reached once the block time is at least this time.
    AtTime(Timestamp),
    /// Never reached.
    Never,
}

impl Expiration {
    /// Whether the expiration is reached in `block`; the boundary counts as reached.
    pub open spec fn expired_at(self, block: BlockInfo) -> bool {
        match self {
            Expiration::AtHeight(height) => block.height >= height,
            Expiration::AtTime(time) => block.time.0 >= time.0,
            Expiration::Never => false,
        }
    }

    /// Whether the expiration is reached in `block`.
    pub fn is_expired(&self, block: &BlockInfo) -> (r: bool)
        ensures
            r == self.expired_at(*block),
    {
        match self {
            Expiration::AtHeight(height) => block.height >= *height,
            Expiration::AtTime(time) => block.time.0 >= time.0,
            Expiration::Never => false,
        }
    }

    /// The expiration that a request asks for: `Never` where it names none.
    pub open spec fn or_never(expires: Option<Expiration>) -> Expiration {
        match expires {
            Some(e) => e,
            None => Expiration::Never,
        }
    }

    /// The expiration that a request asks for.
    pub fn unwrap_or_never(expires: Option<Expiration>) -> (r: Expiration)
        ensures
            r == Expiration::or_never(expires),
    {
        match expires {
            Some(e) => e,
            None => Expiration::Never,
        }
    }
}

/// An amount of one denomination.
#[derive(Debug, PartialEq, Eq)]
pub struct Coin {
    pub denom: String,
    pub amount: u128,
}

/// A coin with its denomination as a sequence of characters.
pub struct CoinView {
    pub denom: Seq<char>,
    pub amount: u128,
}

impl DeepView for Coin {
    type V = CoinView;

    open spec fn deep_view(&self) -> CoinView {
        CoinView { denom: self.denom@, amount: self.amount }
    }
}

impl Clone for Coin {
    fn clone(&self) -> (r: Coin)
        ensures
            r.deep_view() == self.deep_view(),
    {
        Coin { denom: self.denom.clone(), amount: self.amount }
    }
}

impl Coin {
    /// The coin of this amount and denomination.
    pub fn new(amount: u128, denom: &str) -> (r: Coin)
        ensures
            r.deep_view() == (CoinView { denom: denom@, amount }),
    {
        Coin { denom: denom.to_owned(), amount }
    }
}

/// A copy of a list of coins.
pub fn clone_coins(coins: &Vec<Coin>) -> (r: Vec<Coin>)
    ensures
        r.deep_view() == coins.deep_view(),
{
    let mut out: Vec<Coin> = Vec::new();
    let mut i: usize = 0;
    while i < coins.len()
        invariant
            i <= coins.len(),
            out.len() == i,
            forall|k: int| 0 <= k < i ==> out[k].deep_view() == coins[k].deep_view(),
        decreases coins.len() - i,
    {
        out.push(coins[i].clone());
        i += 1;
    }
    assert(out.deep_view() =~= coins.deep_view());
    out
}

/// Who sent the call, and what funds came with it.
#[derive(Debug, Clone, PartialEq, Eq)]
pub struct MessageInfo {
    pub sender: Addr,
    pub funds: Vec<Coin>,
}

/// The digit that stands for a number below ten.
pub open spec fn digit_char(d: nat) -> char {
    if d == 0 {
        '0'
    } else if d == 1 {
        '1'
    } else if d == 2 {
        '2'
    } else if d == 3 {
        '3'
    } else if d == 4 {
        '4'
    } else if d == 5 {
        '5'
    } else if d == 6 {
        '6'
    } else if d == 7 {
        '7'
    } else if d == 8 {
        '8'
    } else {
        '9'
    }
}

/// A number written in decimal digits, without leading zeros.
pub open spec fn decimal(n: nat) -> Seq<char>
    decreases n,
{
    if n < 10 {
        seq![digit_char(n)]
    } else {
        decimal(n / 10).push(digit_char(n % 10))
    }
}

fn digit_text(d: u64) -> (r: &'static str)
    requires
        d < 10,
    ensures
        r@ == seq![digit_char(d as nat)],
{
    proof {
        reveal_strlit("0");
        reveal_strlit("1");
        reveal_strlit("2");
        reveal_strlit("3");
        reveal_strlit("4");
        reveal_strlit("5");
        reveal_strlit("6");
        reveal_strlit("7");
        reveal_strlit("8");
        reveal_strlit("9");
    }
    let text = if d == 0 {
        "0"
    } else if d == 1 {
        "1"
    } else if d == 2 {
        "2"
    } else if d == 3 {
        "3"
    } else if d == 4 {
        "4"
    } else if d == 5 {
        "5"
    } else if d == 6 {
        "6"
    } else if d == 7 {
        "7"
    } else if d == 8 {
        "8"
    } else {
        "9"
    };
    assert(text@ =~= seq![digit_char(d as nat)]);
    text
}

/// Writes a number in decimal digits.
pub fn decimal_text(n: u64) -> (r: String)
    ensures
        r@ == decimal(n as nat),
    decreases n,
{
    if n < 10 {
        digit_text(n).to_owned()
    } else {
        let mut text = decimal_text(n / 10);
        text.append(digit_text(n % 10));
        assert(text@ =~= decimal((n / 10) as nat).push(digit_char((n % 10) as nat)));
        text
    }
}

/// One key-value annotation of a successful command.
#[derive(Debug, PartialEq, Eq)]
pub struct Attribute {
    pub key: String,
    pub value: String,
}

impl DeepView for Attribute {
    type V = (Seq<char>, Seq<char>);

    open spec fn deep_view(&self) -> (Seq<char>, Seq<char>) {
        (self.key@, self.value@)
    }
}

/// What a successful command hands back to the host.
#[derive(Debug, PartialEq)]
pub struct Response {
    /// Messages for the host to dispatch
    pub messages: Vec<CosmosMsg>,
    /// The attribute log of the command
    pub attributes: Vec<Attribute>,
}

/// A response with its attributes as pairs of sequences of characters.
pub struct ResponseView {
    pub messages: Seq<CosmosMsg>,
    pub attributes: Seq<(Seq<char>, Seq<char>)>,
}

impl DeepView for Response {
    type V = ResponseView;

    open spec fn deep_view(&self) -> ResponseView {
        ResponseView { messages: self.messages@, attributes: self.attributes.deep_view() }
    }
}

impl Response {
    /// A response with no message and no attribute.
    pub fn new() -> (r: Response)
        ensures
            r.deep_view() == (ResponseView { messages: seq![], attributes: seq![] }),
    {
        let r = Response { messages: Vec::new(), attributes: Vec::new() };
        assert(r.messages@ =~= seq![]);
        assert(r.attributes.deep_view() =~= seq![]);
        r
    }

    /// The response with one more attribute at the end of its log.
    pub fn add_attribute(self, key: &str, value: String) -> (r: Response)
        ensures
            r.deep_view() == (ResponseView {
                attributes: self.deep_view().attributes.push((key@, value@)),
                ..self.deep_view()
            }),
    {
        let mut response = self;
        response.attributes.push(Attribute { key: key.to_owned(), value });
        assert(response.attributes.deep_view() =~= self.attributes.deep_view().push(
            (key@, value@),
        ));
        response
    }

    /// The response with one more message at the end.
    pub fn add_message(self, msg: CosmosMsg) -> (r: Response)
        ensures
            r.deep_view() == (ResponseView {
                messages: self.deep_view().messages.push(msg),
                ..self.deep_view()
            }),
    {
        let mut response = self;
        response.messages.push(msg);
        response
    }
}

impl Default for Response {
    fn default() -> (r: Response)
        ensures
            r.deep_view() == (ResponseView { messages: seq![], attributes: seq![] }),
    {
        Response::new()
    }
}

} // verus!
