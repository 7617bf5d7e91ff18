//! Payment methods, and the two operations that tie one to a customer and
//! release it again.

use crate::client::{Client, Response};
use crate::form::{
    append_entry, decode, encode, lemma_decode_of_encode, lemma_encode_is_empty,
    lemma_encode_push,
};
use crate::ids::{CustomerId, PaymentMethodId};
use crate::text::{free_of, join, lemma_split_of_join, split};
use vstd::prelude::*;
use vstd::string::StringExecFns;

verus! {

/// A payment method as the service describes it.
#[derive(Debug, PartialEq, Eq)]
pub struct PaymentMethod {
    /// The identifier under which the service keeps it.
    pub id: PaymentMethodId,
    /// The customer it is attached to, if it is attached to one.
    pub customer: Option<CustomerId>,
}

impl Clone for PaymentMethod {
    fn clone(&self) -> (copy: Self)
        ensures
            copy == *self,
    {
        PaymentMethod {
            id: self.id.clone(),
            customer: match &self.customer {
                Some(customer) => Some(customer.clone()),
                None => None,
            },
        }
    }
}

/// The parameters of [`PaymentMethod::attach`].
#[derive(Debug)]
pub struct AttachPaymentMethod {
    /// The customer to attach the payment method to.
    pub customer: CustomerId,
}

/// The parameters of [`PaymentMethod::detach`].
#[derive(Clone, Copy, Debug)]
pub struct DetachPaymentMethod<'a> {
    /// The fields of the answer that the service is to spell out in place,
    /// where it would otherwise give an identifier only.
    pub expand: &'a [&'a str],
}

/// The entries that carry an attachment to `customer`.
pub open spec fn attach_entries(customer: Seq<char>) -> Seq<(Seq<char>, Seq<char>)> {
    seq![("customer"@, customer)]
}

/// The entries that ask for `fields` to be spelt out: one for each, in
/// their order, all under the same key.
pub open spec fn detach_entries(fields: Seq<Seq<char>>) -> Seq<(Seq<char>, Seq<char>)> {
    fields.map_values(|field: Seq<char>| ("expand[]"@, field))
}

/// Where an attachment of the payment method `id` is posted to.
pub open spec fn attach_path(id: Seq<char>) -> Seq<char> {
    "/payment_methods/"@ + id + "/attach"@
}

/// Where a detachment of the payment method `id` is posted to.
pub open spec fn detach_path(id: Seq<char>) -> Seq<char> {
    "/payment_methods/"@ + id + "/detach"@
}

impl Clone for AttachPaymentMethod {
    fn clone(&self) -> (copy: Self)
        ensures
            copy == *self,
    {
        AttachPaymentMethod { customer: self.customer.clone() }
    }
}

impl AttachPaymentMethod {
    /// The entries of the form that carries these parameters.
    pub open spec fn entries(&self) -> Seq<(Seq<char>, Seq<char>)> {
        attach_entries(self.customer@)
    }

    /// The form body that carries these parameters: `customer=` and the
    /// customer's identifier.
    pub fn form_body(&self) -> (body: String)
        ensures
            body@ == encode(self.entries()),
            body@ == "customer="@ + self.customer@,
    {
        let mut body = String::new();
        append_entry(&mut body, "customer", self.customer.as_str());
        proof {
            reveal_strlit("customer");
            reveal_strlit("customer=");
            lemma_encode_push(Seq::empty(), "customer"@, self.customer@);
        }
        body
    }
}

impl<'a> DetachPaymentMethod<'a> {
    /// Parameters that ask for no field to be spelt out.
    pub fn new() -> (params: Self)
        ensures
            params.expand@.len() == 0,
    {
        DetachPaymentMethod { expand: &[] }
    }

    /// The fields to spell out, each as text.
    pub open spec fn fields(&self) -> Seq<Seq<char>> {
        self.expand@.map_values(|field: &str| field@)
    }

    /// The entries of the form that carries these parameters.
    pub open spec fn entries(&self) -> Seq<(Seq<char>, Seq<char>)> {
        detach_entries(self.fields())
    }

    /// The form body that carries these parameters: one entry `expand[]=`
    /// for each field, in the order of the fields. Without fields the body
    /// is empty, so that no `expand` key stands in it.
    pub fn form_body(&self) -> (body: String)
        ensures
            body@ == encode(self.entries()),
            body@.len() == 0 <==> self.expand@.len() == 0,
    {
        let mut body = String::new();
        let mut done: usize = 0;
        while done < self.expand.len()
            invariant
                done <= self.expand@.len(),
                body@ == encode(detach_entries(self.fields().take(done as int))),
            decreases self.expand@.len() - done,
        {
            let field: &str = self.expand[done];
            append_entry(&mut body, "expand[]", field);
            proof {
                let before = self.fields().take(done as int);
                lemma_encode_push(detach_entries(before), "expand[]"@, field@);
                assert(self.fields().take(done as int + 1) == before.push(field@));
                assert(detach_entries(before.push(field@)) == detach_entries(before).push(
                    ("expand[]"@, field@),
                ));
            }
            done += 1;
        }
        proof {
            assert(self.fields().take(done as int) == self.fields());
            lemma_encode_is_empty(self.entries());
        }
        body
    }
}

impl<'a> Default for DetachPaymentMethod<'a> {
    /// Parameters that ask for no field to be spelt out.
    fn default() -> (params: Self)
        ensures
            params.expand@.len() == 0,
    {
        DetachPaymentMethod::new()
    }
}

impl PaymentMethod {
    /// Attaches a payment method to a customer.
    ///
    /// Asks the client once, to post the parameters to the path of the
    /// payment method's attachment, and gives back what the client answers,
    /// resource or error, as it is.
    pub fn attach<C: Client>(
        client: &mut C,
        payment_method_id: &PaymentMethodId,
        params: AttachPaymentMethod,
    ) -> (res: Response<PaymentMethod>)
        ensures
            old(client).exchange(
                final(client),
                attach_path(payment_method_id@),
                encode(params.entries()),
                res,
            ),
    {
        let mut path = String::from_str("/payment_methods/");
        path.append(payment_method_id.as_str());
        path.append("/attach");
        let body = params.form_body();
        client.post_form(path.as_str(), body.as_str())
    }

    /// Detaches a payment method from the customer it is attached to.
    ///
    /// Asks the client once, to post the parameters to the path of the
    /// payment method's detachment, and gives back what the client answers,
    /// resource or error, as it is.
    pub fn detach<C: Client>(
        client: &mut C,
        id: &PaymentMethodId,
        params: DetachPaymentMethod<'_>,
    ) -> (res: Response<PaymentMethod>)
        ensures
            old(client).exchange(
                final(client),
                detach_path(id@),
                encode(params.entries()),
                res,
            ),
    {
        let mut path = String::from_str("/payment_methods/");
        path.append(id.as_str());
        path.append("/detach");
        let body = params.form_body();
        client.post_form(path.as_str(), body.as_str())
    }
}

/// The path of an attachment has the segments `payment_methods`, the
/// identifier and `attach`, and no others, provided the identifier holds no
/// `/` of its own. (The empty piece in front is what stands before the
/// leading `/`.)
pub proof fn lemma_attach_path_segments(id: Seq<char>)
    requires
        free_of(id, '/'),
    ensures
        split(attach_path(id), '/') == seq![Seq::empty(), "payment_methods"@, id, "attach"@],
{
    reveal_strlit("/payment_methods/");
    reveal_strlit("payment_methods");
    reveal_strlit("/attach");
    reveal_strlit("attach");
    lemma_action_path_segments(id, "attach"@);
    assert(attach_path(id) == seq!['/'] + "payment_methods"@ + seq!['/'] + id + seq!['/']
        + "attach"@);
}

/// The path of a detachment has the segments `payment_methods`, the
/// identifier and `detach`, and no others, provided the identifier holds no
/// `/` of its own.
pub proof fn lemma_detach_path_segments(id: Seq<char>)
    requires
        free_of(id, '/'),
    ensures
        split(detach_path(id), '/') == seq![Seq::empty(), "payment_methods"@, id, "detach"@],
{
    reveal_strlit("/payment_methods/");
    reveal_strlit("payment_methods");
    reveal_strlit("/detach");
    reveal_strlit("detach");
    lemma_action_path_segments(id, "detach"@);
    assert(detach_path(id) == seq!['/'] + "payment_methods"@ + seq!['/'] + id + seq!['/']
        + "detach"@);
}

/// Cutting the path of an action at each `/` gives what it was put together
/// from.
proof fn lemma_action_path_segments(id: Seq<char>, action: Seq<char>)
    requires
        free_of(id, '/'),
        free_of(action, '/'),
    ensures
        split(
            seq!['/'] + "payment_methods"@ + seq!['/'] + id + seq!['/'] + action,
            '/',
        ) == seq![Seq::empty(), "payment_methods"@, id, action],
{
    reveal_strlit("payment_methods");
    let pieces = seq![Seq::<char>::empty(), "payment_methods"@, id, action];
    let two = pieces.drop_last().drop_last();
    assert(join(two.drop_last(), '/') == Seq::<char>::empty());
    assert(join(pieces.drop_last(), '/') == join(two, '/') + seq!['/'] + id);
    lemma_split_of_join(pieces, '/');
}

/// A reader finds in the body of an attachment the one entry `customer`
/// with the customer's identifier, provided that identifier holds no `&`.
pub proof fn lemma_attach_body_read_back(customer: Seq<char>)
    requires
        free_of(customer, '&'),
    ensures
        decode(encode(attach_entries(customer))) == attach_entries(customer),
{
    reveal_strlit("customer");
    lemma_decode_of_encode(attach_entries(customer));
}

/// A reader finds in the body of a detachment one `expand[]` entry for each
/// field, in the order of the fields, provided no field holds `&`.
pub proof fn lemma_detach_body_read_back(fields: Seq<Seq<char>>)
    requires
        forall|i: int| 0 <= i < fields.len() ==> free_of(#[trigger] fields[i], '&'),
    ensures
        decode(encode(detach_entries(fields))) == detach_entries(fields),
        decode(encode(detach_entries(fields))).len() == fields.len(),
{
    reveal_strlit("expand[]");
    lemma_decode_of_encode(detach_entries(fields));
}

/// The body of a detachment is empty, and so without any `expand` key,
/// exactly when no field is to be spelt out.
pub proof fn lemma_detach_body_is_empty(fields: Seq<Seq<char>>)
    ensures
        encode(detach_entries(fields)).len() == 0 <==> fields.len() == 0,
{
    lemma_encode_is_empty(detach_entries(fields));
}

} // verus!
