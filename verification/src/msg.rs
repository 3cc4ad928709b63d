use vstd::prelude::*;

verus! {

/// An amount of a single native token: a denomination identifier together
/// with the number of units.
#[derive(Debug, Clone, PartialEq, Eq)]
pub struct Coin {
    pub denom: String,
    pub amount: u128,
}

/// Mathematical image of a `Coin`.
#[verifier::ext_equal]
pub ghost struct CoinV {
    pub denom: Seq<char>,
    pub amount: u128,
}

impl View for Coin {
    type V = CoinV;

    open spec fn view(&self) -> CoinV {
        CoinV { denom: self.denom@, amount: self.amount }
    }
}

impl DeepView for Coin {
    type V = CoinV;

    open spec fn deep_view(&self) -> CoinV {
        self@
    }
}

/// Builds a coin of the given amount and denomination.
pub fn coin(amount: u128, denom: &str) -> (c: Coin)
    ensures
        c@ == (CoinV { denom: denom@, amount }),
{
    Coin { denom: denom.to_owned(), amount }
}

/// Builds a one-coin fund list of the given amount and denomination.
pub fn coins(amount: u128, denom: &str) -> (v: Vec<Coin>)
    ensures
        v.deep_view() == seq![CoinV { denom: denom@, amount }],
{
    let mut v: Vec<Coin> = Vec::new();
    v.push(coin(amount, denom));
    proof {
        assert(v.deep_view() =~= seq![CoinV { denom: denom@, amount }]);
    }
    v
}

/// Metadata of the call being handled: the calling identity and the funds
/// the caller attached.
#[derive(Debug, Clone)]
pub struct MessageInfo {
    pub sender: String,
    pub funds: Vec<Coin>,
}

/// Mathematical image of a `MessageInfo`.
#[verifier::ext_equal]
pub ghost struct MessageInfoV {
    pub sender: Seq<char>,
    pub funds: Seq<CoinV>,
}

impl View for MessageInfo {
    type V = MessageInfoV;

    open spec fn view(&self) -> MessageInfoV {
        MessageInfoV { sender: self.sender@, funds: self.funds.deep_view() }
    }
}

/// One key-value pair attached to a success response for observability.
#[derive(Debug, Clone, PartialEq, Eq)]
pub struct Attribute {
    pub key: String,
    pub value: String,
}

/// Mathematical image of an `Attribute`.
#[verifier::ext_equal]
pub ghost struct AttributeV {
    pub key: Seq<char>,
    pub value: Seq<char>,
}

impl View for Attribute {
    type V = AttributeV;

    open spec fn view(&self) -> AttributeV {
        AttributeV { key: self.key@, value: self.value@ }
    }
}

impl DeepView for Attribute {
    type V = AttributeV;

    open spec fn deep_view(&self) -> AttributeV {
        self@
    }
}

/// A transfer instruction for the host: move `amount` from the contract's
/// address to `to_address`.  The host executes it after the call returns
/// successfully.
#[derive(Debug, Clone, PartialEq, Eq)]
pub enum BankMsg {
    Send { to_address: String, amount: Vec<Coin> },
}

/// Mathematical image of a `BankMsg`.
#[verifier::ext_equal]
pub ghost struct BankMsgV {
    pub to_address: Seq<char>,
    pub amount: Seq<CoinV>,
}

impl View for BankMsg {
    type V = BankMsgV;

    open spec fn view(&self) -> BankMsgV {
        match self {
            BankMsg::Send { to_address, amount } => BankMsgV {
                to_address: to_address@,
                amount: amount.deep_view(),
            },
        }
    }
}

impl DeepView for BankMsg {
    type V = BankMsgV;

    open spec fn deep_view(&self) -> BankMsgV {
        self@
    }
}

/// The request that creates the contract: the initial counter value and
/// the minimal-donation threshold.  The caller becomes the owner.
#[derive(Debug, Clone, PartialEq, Eq)]
pub struct InstantiateMsg {
    pub counter: u64,
    pub minimal_donation: Coin,
}

/// Mathematical image of an `InstantiateMsg`.
#[verifier::ext_equal]
pub ghost struct InstantiateMsgV {
    pub counter: u64,
    pub minimal_donation: CoinV,
}

impl View for InstantiateMsg {
    type V = InstantiateMsgV;

    open spec fn view(&self) -> InstantiateMsgV {
        InstantiateMsgV { counter: self.counter, minimal_donation: self.minimal_donation@ }
    }
}

/// The read-only queries the contract understands, one variant each.
#[derive(Debug, Clone, Copy, PartialEq, Eq, Structural)]
pub enum QueryMsg {
    Value {},
    Incremented { value: u64 },
}

/// The state-changing commands the contract understands, one variant each.
#[derive(Debug, Clone, PartialEq, Eq)]
pub enum ExecMsg {
    Donate {},
    Reset { counter: u64 },
    Withdraw {},
    WithdrawTo { receiver: String, funds: Vec<Coin> },
}

/// Mathematical image of an `ExecMsg`.
#[verifier::ext_equal]
pub ghost enum ExecMsgV {
    Donate,
    Reset { counter: u64 },
    Withdraw,
    WithdrawTo { receiver: Seq<char>, funds: Seq<CoinV> },
}

impl View for ExecMsg {
    type V = ExecMsgV;

    open spec fn view(&self) -> ExecMsgV {
        match self {
            ExecMsg::Donate {} => ExecMsgV::Donate,
            ExecMsg::Reset { counter } => ExecMsgV::Reset { counter: *counter },
            ExecMsg::Withdraw {} => ExecMsgV::Withdraw,
            ExecMsg::WithdrawTo { receiver, funds } => ExecMsgV::WithdrawTo {
                receiver: receiver@,
                funds: funds.deep_view(),
            },
        }
    }
}

/// The response to the value and incremented queries.
#[derive(Debug, Clone, Copy, PartialEq, Eq, Structural)]
pub struct ValueResp {
    pub value: u64,
}

/// What a handler returns on success: observability attributes and the
/// instructions the host is asked to execute.
#[derive(Debug, Clone, PartialEq, Eq)]
pub struct Response {
    pub attributes: Vec<Attribute>,
    pub messages: Vec<BankMsg>,
}

/// Mathematical image of a `Response`.
#[verifier::ext_equal]
pub ghost struct ResponseV {
    pub attributes: Seq<AttributeV>,
    pub messages: Seq<BankMsgV>,
}

impl View for Response {
    type V = ResponseV;

    open spec fn view(&self) -> ResponseV {
        ResponseV {
            attributes: self.attributes.deep_view(),
            messages: self.messages.deep_view(),
        }
    }
}

/// The empty response.
pub open spec fn empty_response() -> ResponseV {
    ResponseV { attributes: Seq::empty(), messages: Seq::empty() }
}

impl Response {
    /// A response with no attributes and no messages.
    pub fn new() -> (r: Response)
        ensures
            r@ == empty_response(),
    {
        let r = Response { attributes: Vec::new(), messages: Vec::new() };
        proof {
            assert(r@ =~= empty_response());
        }
        r
    }

    /// Appends one observability attribute.
    pub fn add_attribute(self, key: &str, value: &str) -> (r: Response)
        ensures
            r@.attributes == self@.attributes.push(AttributeV { key: key@, value: value@ }),
            r@.messages == self@.messages,
    {
        let mut r = self;
        r.attributes.push(Attribute { key: key.to_owned(), value: value.to_owned() });
        proof {
            assert(r@.attributes =~= self@.attributes.push(
                AttributeV { key: key@, value: value@ },
            ));
            assert(r@.messages =~= self@.messages);
        }
        r
    }

    /// Appends one instruction for the host.
    pub fn add_message(self, msg: BankMsg) -> (r: Response)
        ensures
            r@.messages == self@.messages.push(msg@),
            r@.attributes == self@.attributes,
    {
        let mut r = self;
        r.messages.push(msg);
        proof {
            assert(r@.messages =~= self@.messages.push(msg@));
            assert(r@.attributes =~= self@.attributes);
        }
        r
    }
}

} // verus!
