use gobject::signal::{
    signal_flags_tokens, validate_many, AccumulatorInput, HandlerInput, Signal, SignalAttrs, DETAILED,
    RUN_LAST,
};
use gobject::type_definition::{TypeBase, TypeMode};
use gobject::util::Errors;

fn attrs() -> SignalAttrs {
    SignalAttrs {
        run_first: false,
        run_last: false,
        run_cleanup: false,
        no_recurse: false,
        detailed: false,
        action: false,
        no_hooks: false,
        must_collect: false,
        deprecated: false,
        override_: false,
        connect: None,
        name: None,
    }
}

fn handler(ident: &str, attrs: SignalAttrs, has_output: bool) -> HandlerInput<u32> {
    HandlerInput { ident: ident.to_string(), span: 1, attrs, receiver: Some(2), has_body: false, has_output }
}

fn messages(e: &Errors<u32>) -> Vec<(u32, String)> {
    e.errors.iter().map(|d| (d.span, d.message.clone())).collect()
}

#[test]
fn handler_records_signal() {
    let mut signals = Vec::new();
    let mut e = Errors::new();
    let mut a = attrs();
    a.run_last = true;
    a.detailed = true;
    Signal::from_handler(handler("value_changed", a, false), TypeBase::Class, TypeMode::Subclass, &mut signals, &mut e);
    assert!(e.errors.is_empty());
    assert_eq!(signals.len(), 1);
    let s = &signals[0];
    assert_eq!(s.name, "value-changed");
    assert_eq!(s.flags, RUN_LAST | DETAILED);
    assert!(s.connect);
    assert_eq!(s.signal_id_cell_ident(), "SIGNAL_VALUE_CHANGED");
    assert_eq!(s.flags_tokens("glib"), "glib::SignalFlags::RUN_LAST | glib::SignalFlags::DETAILED");
    assert_eq!(signal_flags_tokens(0, "g"), "g::SignalFlags::empty()");
}

#[test]
fn duplicate_and_interface_errors() {
    let mut signals = Vec::new();
    let mut e = Errors::new();
    Signal::from_handler(handler("changed", attrs(), false), TypeBase::Interface, TypeMode::Subclass, &mut signals, &mut e);
    let mut o = attrs();
    o.override_ = true;
    Signal::from_handler(handler("changed", o, false), TypeBase::Interface, TypeMode::Wrapper, &mut signals, &mut e);
    assert_eq!(
        messages(&e),
        vec![
            (2, "First argument to interface signal handler must be the wrapper type".to_string()),
            (1, "Duplicate definition for signal `changed`".to_string()),
            (1, "`override` not allowed on interface signal".to_string()),
        ]
    );
    assert_eq!(signals.len(), 1);
    assert!(!signals[0].override_);
}

#[test]
fn invalid_signal_name() {
    let mut signals = Vec::new();
    let mut e = Errors::new();
    let mut a = attrs();
    a.name = Some("9lives".to_string());
    Signal::from_handler(handler("x", a, false), TypeBase::Class, TypeMode::Subclass, &mut signals, &mut e);
    assert_eq!(
        messages(&e),
        vec![(1, "Invalid signal name '9lives'. Signal names must start with an ASCII letter and only contain ASCII letters, numbers, '-' or '_'".to_string())]
    );
}

#[test]
fn accumulators() {
    let mut signals = Vec::new();
    let mut e = Errors::new();
    let acc = AccumulatorInput { ident: "acc".to_string(), span: 5, signal: Some("done".to_string()), inputs: 1, receiver: Some(6), output_span: 7, has_output: false };
    Signal::from_accumulator(acc, TypeMode::Subclass, &mut signals, &mut e);
    assert_eq!(
        messages(&e),
        vec![
            (7, "Accumulator must have 2 or 3 arguments".to_string()),
            (6, "Receiver argument not allowed on accumulator".to_string()),
            (7, "Accumulator must have return type".to_string()),
        ]
    );
    assert!(signals[0].accumulator && signals[0].sig.is_none());
    let acc2 = AccumulatorInput { ident: "acc2".to_string(), span: 8, signal: Some("done".to_string()), inputs: 2, receiver: None, output_span: 9, has_output: true };
    let mut e2 = Errors::new();
    Signal::from_accumulator(acc2, TypeMode::Subclass, &mut signals, &mut e2);
    assert_eq!(messages(&e2), vec![(8, "Duplicate definition for accumulator on signal definition `done`".to_string())]);
    let mut e3 = Errors::new();
    validate_many(&signals, &vec![4], &mut e3);
    assert_eq!(messages(&e3), vec![(4, "No definition for signal `done`".to_string())]);
    Signal::from_handler(handler("done", attrs(), false), TypeBase::Class, TypeMode::Subclass, &mut signals, &mut e3);
    let mut e4 = Errors::new();
    validate_many(&signals, &vec![4], &mut e4);
    assert_eq!(messages(&e4), vec![(4, "Signal with accumulator must have return type".to_string())]);
}
