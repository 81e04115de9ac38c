//! Plain values shared by the contracts: addresses, coins, the metadata of a
//! call, and the response that a call hands back to the chain.

use vstd::prelude::*;
use vstd::std_specs::cmp::PartialEqSpecImpl;

verus! {

/// A principal or contract address, identified by its text.
#[derive(Debug)]
pub struct Addr {
    pub text: String,
}

impl View for Addr {
    type V = Seq<char>;

    open spec fn view(&self) -> Seq<char> {
        self.text@
    }
}

impl DeepView for Addr {
    type V = Seq<char>;

    open spec fn deep_view(&self) -> Seq<char> {
        self.text@
    }
}

impl Clone for Addr {
    fn clone(&self) -> (r: Addr)
        ensures
            r == *self,
    {
        Addr { text: self.text.clone() }
    }
}

impl PartialEq for Addr {
    fn eq(&self, other: &Addr) -> (r: bool) {
        self.text == other.text
    }
}

impl PartialEqSpecImpl for Addr {
    open spec fn obeys_eq_spec() -> bool {
        true
    }

    open spec fn eq_spec(&self, other: &Addr) -> bool {
        self.text@ == other.text@
    }
}

impl Eq for Addr {

}

impl Addr {
    /// Wraps `input` as an address without checking its format.
    pub fn unchecked(input: &str) -> (r: Addr)
        ensures
            r@ == input@,
    {
        Addr { text: input.to_owned() }
    }

    /// The text of the address.
    pub fn as_str(&self) -> (r: &str)
        ensures
            r@ == self@,
    {
        self.text.as_str()
    }

    /// The text of the address, as an owned string.
    pub fn into_string(self) -> (r: String)
        ensures
            r@ == self@,
    {
        self.text
    }
}

/// An amount of one denomination of native tokens.
#[derive(Debug, PartialEq, Eq)]
pub struct Coin {
    pub denom: String,
    pub amount: u128,
}

/// What a [`Coin`] stands for.
pub struct CoinView {
    pub denom: Seq<char>,
    pub amount: u128,
}

impl View for Coin {
    type V = CoinView;

    open spec fn view(&self) -> CoinView {
        CoinView { denom: self.denom@, amount: self.amount }
    }
}

impl DeepView for Coin {
    type V = CoinView;

    open spec fn deep_view(&self) -> CoinView {
        self@
    }
}

impl Clone for Coin {
    fn clone(&self) -> (r: Coin)
        ensures
            r == *self,
    {
        Coin { denom: self.denom.clone(), amount: self.amount }
    }
}

impl Coin {
    /// `amount` tokens of the denomination `denom`.
    pub fn new(amount: u128, denom: &str) -> (r: Coin)
        ensures
            r@ == (CoinView { denom: denom@, amount }),
    {
        Coin { denom: denom.to_owned(), amount }
    }
}

/// Who makes a call, and the funds sent along with it.
#[derive(Debug, Clone, PartialEq, Eq)]
pub struct MessageInfo {
    pub sender: Addr,
    pub funds: Vec<Coin>,
}

/// The contract that is being called.
#[derive(Debug, Clone, PartialEq, Eq)]
pub struct ContractInfo {
    pub address: Addr,
}

/// The surroundings of a call, as far as the contracts read them.
#[derive(Debug, Clone, PartialEq, Eq)]
pub struct Env {
    pub contract: ContractInfo,
}

/// A key and a value that a response reports to the chain.
#[derive(Debug, Clone, PartialEq, Eq)]
pub struct Attribute {
    pub key: String,
    pub value: String,
}

/// What an [`Attribute`] stands for.
pub struct AttributeView {
    pub key: Seq<char>,
    pub value: Seq<char>,
}

impl View for Attribute {
    type V = AttributeView;

    open spec fn view(&self) -> AttributeView {
        AttributeView { key: self.key@, value: self.value@ }
    }
}

impl DeepView for Attribute {
    type V = AttributeView;

    open spec fn deep_view(&self) -> AttributeView {
        self@
    }
}

/// The attribute with the given key and value.
pub open spec fn attr(key: Seq<char>, value: Seq<char>) -> AttributeView {
    AttributeView { key, value }
}

/// The answer of a call that succeeded: attributes for the chain's log, and
/// the messages, of kind `M`, that the chain is to deliver next.
#[derive(Debug, Clone, PartialEq, Eq)]
pub struct Response<M> {
    pub attributes: Vec<Attribute>,
    pub messages: Vec<M>,
}

/// What a [`Response`] stands for.
#[verifier::ext_equal]
pub struct ResponseView<V> {
    pub attributes: Seq<AttributeView>,
    pub messages: Seq<V>,
}

impl<V> ResponseView<V> {
    /// The response without attributes or messages.
    pub open spec fn empty() -> Self {
        ResponseView { attributes: Seq::empty(), messages: Seq::empty() }
    }

    /// This response with one more attribute at the end.
    pub open spec fn add_attribute(self, key: Seq<char>, value: Seq<char>) -> Self {
        ResponseView { attributes: self.attributes.push(attr(key, value)), messages: self.messages }
    }

    /// This response with one more message at the end.
    pub open spec fn add_message(self, msg: V) -> Self {
        ResponseView { attributes: self.attributes, messages: self.messages.push(msg) }
    }
}

impl<M: DeepView> View for Response<M> {
    type V = ResponseView<M::V>;

    open spec fn view(&self) -> ResponseView<M::V> {
        ResponseView {
            attributes: self.attributes.deep_view(),
            messages: self.messages.deep_view(),
        }
    }
}

impl<M: DeepView> DeepView for Response<M> {
    type V = ResponseView<M::V>;

    open spec fn deep_view(&self) -> ResponseView<M::V> {
        self@
    }
}

impl<M: DeepView> Response<M> {
    /// A response without attributes or messages.
    pub fn new() -> (r: Self)
        ensures
            r@ == ResponseView::<M::V>::empty(),
    {
        Response { attributes: Vec::new(), messages: Vec::new() }
    }

    /// Appends the attribute `key` = `value`.
    pub fn add_attribute(self, key: &str, value: &str) -> (r: Self)
        ensures
            r@ == self@.add_attribute(key@, value@),
    {
        let mut r = self;
        r.attributes.push(Attribute { key: key.to_owned(), value: value.to_owned() });
        r
    }

    /// Appends the message `msg`.
    pub fn add_message(self, msg: M) -> (r: Self)
        ensures
            r@ == self@.add_message(msg.deep_view()),
    {
        let mut r = self;
        r.messages.push(msg);
        r
    }
}

/// Whether `addr` occurs in `list`.
pub fn contains_addr(list: &Vec<Addr>, addr: &Addr) -> (found: bool)
    ensures
        found == list.deep_view().contains(addr@),
{
    let mut i: usize = 0;
    while i < list.len()
        invariant
            i <= list.len(),
            forall|j: int| 0 <= j < i ==> list.deep_view()[j] != addr@,
        decreases list.len() - i,
    {
        if list[i] == *addr {
            assert(list.deep_view()[i as int] == addr@);
            return true;
        }
        i += 1;
    }
    false
}

/// Takes every occurrence of `addr` out of `list`; the others keep their
/// order.
pub fn remove_addr(list: &mut Vec<Addr>, addr: &Addr)
    ensures
        final(list).deep_view() == old(list).deep_view().filter(|a: Seq<char>| a != addr@),
{
    let ghost keep = |a: Seq<char>| a != addr@;
    let mut kept: Vec<Addr> = Vec::new();
    let mut i: usize = 0;
    while i < list.len()
        invariant
            i <= list.len(),
            keep == |a: Seq<char>| a != addr@,
            kept.deep_view() == list.deep_view().take(i as int).filter(keep),
        decreases list.len() - i,
    {
        let ghost done = list.deep_view().take(i as int);
        let ghost next = list.deep_view().take(i + 1);
        proof {
            assert(next.drop_last() =~= done);
            reveal(Seq::filter);
        }
        if !(list[i] == *addr) {
            kept.push(list[i].clone());
        }
        i += 1;
    }
    assert(list.deep_view().take(i as int) =~= list.deep_view());
    *list = kept;
}

} // verus!
