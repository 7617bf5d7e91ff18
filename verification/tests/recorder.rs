use payment_methods::{
    AttachPaymentMethod, Client, CustomerId, DetachPaymentMethod, Error, PaymentMethod,
    PaymentMethodId, Recorder,
};

fn attached() -> PaymentMethod {
    PaymentMethod { id: PaymentMethodId::new("pm_1"), customer: Some(CustomerId::new("cus_1")) }
}

fn seen(recorder: &Recorder) -> Vec<(&str, &str)> {
    recorder.seen.iter().map(|(path, body)| (path.as_str(), body.as_str())).collect()
}

#[test]
fn a_new_recorder_has_seen_nothing() {
    let recorder = Recorder::new(Ok(attached()));
    assert!(recorder.seen.is_empty());
    assert_eq!(recorder.reply, Ok(attached()));
}

#[test]
fn a_recorder_keeps_what_it_is_asked_and_answers_with_its_reply() {
    let mut recorder = Recorder::new(Ok(attached()));
    assert_eq!(recorder.post_form("/anywhere", "a=b"), Ok(attached()));
    assert_eq!(recorder.post_form("", ""), Ok(attached()));
    assert_eq!(seen(&recorder), vec![("/anywhere", "a=b"), ("", "")]);
    assert_eq!(recorder.reply, Ok(attached()));
}

#[test]
fn attach_leaves_one_request_with_a_recorder() {
    let mut recorder = Recorder::new(Ok(attached()));
    let params = AttachPaymentMethod { customer: CustomerId::new("cus_1") };
    let result = PaymentMethod::attach(&mut recorder, &PaymentMethodId::new("pm_1"), params);
    assert_eq!(result, Ok(attached()));
    assert_eq!(seen(&recorder), vec![("/payment_methods/pm_1/attach", "customer=cus_1")]);
}

#[test]
fn detach_leaves_one_request_with_a_recorder() {
    let detached = PaymentMethod { id: PaymentMethodId::new("pm_1"), customer: None };
    let mut recorder = Recorder::new(Ok(detached.clone()));
    let params = DetachPaymentMethod { expand: &["customer", "card"] };
    let result = PaymentMethod::detach(&mut recorder, &PaymentMethodId::new("pm_1"), params);
    assert_eq!(result, Ok(detached));
    assert_eq!(
        seen(&recorder),
        vec![("/payment_methods/pm_1/detach", "expand[]=customer&expand[]=card")]
    );
}

#[test]
fn requests_are_kept_oldest_first() {
    let mut recorder = Recorder::new(Ok(attached()));
    let id = PaymentMethodId::new("pm_7");
    let params = AttachPaymentMethod { customer: CustomerId::new("cus_2") };
    let _ = PaymentMethod::attach(&mut recorder, &id, params);
    let _ = PaymentMethod::detach(&mut recorder, &id, DetachPaymentMethod::new());
    assert_eq!(
        seen(&recorder),
        vec![("/payment_methods/pm_7/attach", "customer=cus_2"), ("/payment_methods/pm_7/detach", "")]
    );
}

#[test]
fn the_error_of_a_recorder_comes_back_from_both_operations() {
    for error in [
        Error::Transport("unreachable".to_string()),
        Error::Api { status: 404, message: "No such payment_method".to_string() },
        Error::Deserialization("unexpected end of input".to_string()),
    ] {
        let mut recorder = Recorder::new(Err(error.clone()));
        let id = PaymentMethodId::new("pm_1");
        let params = AttachPaymentMethod { customer: CustomerId::new("cus_1") };
        assert_eq!(PaymentMethod::attach(&mut recorder, &id, params), Err(error.clone()));
        assert_eq!(recorder.seen.len(), 1);
        assert_eq!(
            PaymentMethod::detach(&mut recorder, &id, DetachPaymentMethod { expand: &["customer"] }),
            Err(error)
        );
        assert_eq!(recorder.seen.len(), 2);
    }
}
