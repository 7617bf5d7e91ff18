//! Identifiers of the resources that the requests name.
//!
//! Each kind of resource has an identifier type of its own, so that one
//! cannot be handed over where the other is meant. An identifier is the text
//! that the service gave out; nothing here looks into it.

use vstd::prelude::*;
use vstd::string::StringExecFns;

verus! {

/// The identifier of a payment method.
#[derive(Debug, PartialEq, Eq)]
pub struct PaymentMethodId(String);

/// The identifier of a customer.
#[derive(Debug, PartialEq, Eq)]
pub struct CustomerId(String);

impl View for PaymentMethodId {
    type V = Seq<char>;

    /// The identifier as text.
    closed spec fn view(&self) -> Seq<char> {
        self.0@
    }
}

impl View for CustomerId {
    type V = Seq<char>;

    /// The identifier as text.
    closed spec fn view(&self) -> Seq<char> {
        self.0@
    }
}

impl PaymentMethodId {
    /// The identifier that reads `text`.
    pub fn new(text: &str) -> (id: Self)
        ensures
            id@ == text@,
    {
        PaymentMethodId(String::from_str(text))
    }

    /// The identifier as text.
    pub fn as_str(&self) -> (text: &str)
        ensures
            text@ == self@,
    {
        self.0.as_str()
    }
}

impl CustomerId {
    /// The identifier that reads `text`.
    pub fn new(text: &str) -> (id: Self)
        ensures
            id@ == text@,
    {
        CustomerId(String::from_str(text))
    }

    /// The identifier as text.
    pub fn as_str(&self) -> (text: &str)
        ensures
            text@ == self@,
    {
        self.0.as_str()
    }
}

impl Clone for PaymentMethodId {
    fn clone(&self) -> (copy: Self)
        ensures
            copy == *self,
    {
        PaymentMethodId(self.0.clone())
    }
}

impl Clone for CustomerId {
    fn clone(&self) -> (copy: Self)
        ensures
            copy == *self,
    {
        CustomerId(self.0.clone())
    }
}

} // verus!
