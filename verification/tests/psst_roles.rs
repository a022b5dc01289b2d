use spectre::psst::{Inner, Input, Output, Payload, PsstError, Role, State, PSST};
use spectre::hex_codec::HexError;

fn input(final_sig: bool) -> Input {
    Input {
        transaction_id: vec![7u8; 32],
        index: 1,
        amount: 5_000,
        script_public_key: vec![0x20, 0xac],
        sequence: None,
        sig_op_count: 1,
        redeem_script: None,
        final_script_sig: if final_sig { Some(vec![1, 2, 3]) } else { None },
    }
}

fn role_of(p: &PSST) -> Role {
    p.state().expect("handle holds a state").role()
}

fn inner_of(p: &PSST) -> &Inner {
    match p.state().expect("handle holds a state") {
        State::NoOp(Some(i)) => i,
        State::NoOp(None) => panic!("no payload"),
        State::Creator(i)
        | State::Constructor(i)
        | State::Updater(i)
        | State::Signer(i)
        | State::Combiner(i)
        | State::Finalizer(i)
        | State::Extractor(i) => i,
    }
}

#[test]
fn creator_from_nothing_starts_empty() {
    let mut p = PSST::from(State::NoOp(None));
    p.creator().expect("creator allowed");
    assert_eq!(role_of(&p), Role::Creator);
    assert_eq!(p.role_getter(), "Creator");
    let inner = inner_of(&p);
    assert!(inner.inputs.is_empty() && inner.outputs.is_empty());
    assert_eq!(inner.fallback_lock_time, None);
    assert!(!inner.inputs_modifiable && !inner.outputs_modifiable);
}

#[test]
fn creator_refused_when_payload_present() {
    let mut p = PSST::from(State::NoOp(Some(Inner::default())));
    assert_eq!(p.creator().err(), Some(PsstError::CreateNotAllowed));
    assert!(!p.has_state());
}

#[test]
fn creator_refused_after_a_role() {
    let mut p = PSST::from(State::Constructor(Inner::default()));
    assert_eq!(p.creator().err(), Some(PsstError::UnsupportedTransition(Role::Constructor)));
    assert!(!p.has_state());
}

#[test]
fn role_needs_a_payload() {
    for target in 0..6 {
        let mut p = PSST::from(State::NoOp(None));
        let r = match target {
            0 => p.constructor(),
            1 => p.updater(),
            2 => p.signer(),
            3 => p.combiner(),
            4 => p.finalizer(),
            _ => p.extractor(),
        };
        assert_eq!(r.err(), Some(PsstError::NotInitialized));
        assert!(!p.has_state());
    }
}

#[test]
fn payload_without_role_takes_any_later_role() {
    let mut p = PSST::from(State::NoOp(Some(Inner::default())));
    assert!(p.extractor().is_ok());
    assert_eq!(role_of(&p), Role::Extractor);
}

#[test]
fn full_life_of_a_psst() {
    let mut p = PSST::from(State::NoOp(None));
    p.creator().unwrap();
    p.inputs_modifiable().unwrap();
    p.outputs_modifiable().unwrap();
    p.fallback_lock_time(42).unwrap();
    p.constructor().unwrap();
    p.input(input(true)).unwrap();
    p.output(Output { amount: 4_000, script_public_key: vec![1, 2] }).unwrap();
    p.no_more_inputs().unwrap();
    p.no_more_outputs().unwrap();
    p.updater().unwrap();
    p.set_sequence(9, 0).unwrap();
    p.signer().unwrap();
    p.combiner().unwrap();
    p.signer().unwrap();
    p.combiner().unwrap();
    p.finalizer().unwrap();
    p.extractor().unwrap();
    assert_eq!(role_of(&p), Role::Extractor);
    let inner = inner_of(&p);
    assert_eq!(inner.fallback_lock_time, Some(42));
    assert!(!inner.inputs_modifiable && !inner.outputs_modifiable);
    assert_eq!(inner.inputs.len(), 1);
    assert_eq!(inner.inputs[0].sequence, Some(9));
    assert_eq!(inner.inputs[0].amount, 5_000);
    assert_eq!(inner.outputs.len(), 1);
    assert_eq!(inner.outputs[0].amount, 4_000);
}

#[test]
fn roles_never_move_back() {
    let mut p = PSST::from(State::Signer(Inner::default()));
    assert_eq!(p.constructor().err(), Some(PsstError::UnsupportedTransition(Role::Signer)));
    assert!(!p.has_state());
    let mut q = PSST::from(State::Finalizer(Inner::default()));
    assert_eq!(q.combiner().err(), Some(PsstError::UnsupportedTransition(Role::Finalizer)));
    let mut u = PSST::from(State::Updater(Inner::default()));
    assert_eq!(u.finalizer().err(), Some(PsstError::UnsupportedTransition(Role::Updater)));
}

#[test]
fn extractor_takes_no_other_role() {
    let mut p = PSST::from(State::Extractor(Inner::default()));
    assert_eq!(p.signer().err(), Some(PsstError::UnsupportedTransition(Role::Extractor)));
    let mut q = PSST::from(State::Extractor(Inner::default()));
    assert_eq!(q.extractor().err(), Some(PsstError::UnsupportedTransition(Role::Extractor)));
}

#[test]
fn extraction_needs_final_signature_scripts() {
    let mut inner = Inner::default();
    inner.inputs.push(input(true));
    inner.inputs.push(input(false));
    let mut p = PSST::from(State::Finalizer(inner));
    assert_eq!(p.extractor().err(), Some(PsstError::TxNotFinalized));
    assert!(!p.has_state());
}

#[test]
fn creator_only_edits() {
    let mut p = PSST::from(State::Constructor(Inner::default()));
    assert_eq!(p.fallback_lock_time(1).err(), Some(PsstError::ExpectedState(Role::Creator)));
    let mut q = PSST::from(State::Updater(Inner::default()));
    assert_eq!(q.inputs_modifiable().err(), Some(PsstError::ExpectedState(Role::Creator)));
    let mut r = PSST::from(State::NoOp(None));
    assert_eq!(r.outputs_modifiable().err(), Some(PsstError::ExpectedState(Role::Creator)));
}

#[test]
fn constructor_only_edits() {
    let mut p = PSST::from(State::Creator(Inner::default()));
    assert_eq!(p.no_more_inputs().err(), Some(PsstError::ExpectedState(Role::Constructor)));
    let mut q = PSST::from(State::Signer(Inner::default()));
    assert_eq!(q.no_more_outputs().err(), Some(PsstError::ExpectedState(Role::Constructor)));
    let mut r = PSST::from(State::Updater(Inner::default()));
    assert_eq!(r.input(input(false)).err(), Some(PsstError::ExpectedState(Role::Constructor)));
    let mut s = PSST::from(State::Creator(Inner::default()));
    let out = Output { amount: 1, script_public_key: vec![] };
    assert_eq!(s.output(out).err(), Some(PsstError::ExpectedState(Role::Constructor)));
    assert!(!s.has_state());
}

#[test]
fn inputs_are_appended_in_order() {
    let mut p = PSST::from(State::Constructor(Inner::default()));
    let mut a = input(false);
    a.index = 0;
    let mut b = input(false);
    b.index = 5;
    p.input(a).unwrap();
    p.input(b).unwrap();
    let inner = inner_of(&p);
    assert_eq!(inner.inputs.len(), 2);
    assert_eq!(inner.inputs[0].index, 0);
    assert_eq!(inner.inputs[1].index, 5);
    assert_eq!(inner.inputs[1].transaction_id, vec![7u8; 32]);
}

#[test]
fn sequence_of_one_input() {
    let mut inner = Inner::default();
    inner.inputs.push(input(false));
    inner.inputs.push(input(false));
    let mut p = PSST::from(State::Updater(inner));
    p.set_sequence(77, 1).unwrap();
    let inner = inner_of(&p);
    assert_eq!(inner.inputs[0].sequence, None);
    assert_eq!(inner.inputs[1].sequence, Some(77));
}

#[test]
fn sequence_index_out_of_bounds_empties_the_handle() {
    let mut inner = Inner::default();
    inner.inputs.push(input(false));
    let mut p = PSST::from(State::Updater(inner));
    assert_eq!(p.set_sequence(1, 1).err(), Some(PsstError::OutOfBounds));
    assert!(!p.has_state());
    let mut q = PSST::from(State::Signer(Inner::default()));
    assert_eq!(q.set_sequence(1, 0).err(), Some(PsstError::ExpectedState(Role::Updater)));
}

#[test]
fn redeem_script_is_decoded_from_hex() {
    let mut p = PSST::from(State::Constructor(Inner::default()));
    p.input_with_redeem(input(false), b"0a1B").unwrap();
    assert_eq!(inner_of(&p).inputs[0].redeem_script, Some(vec![0x0a, 0x1b]));
    p.input_with_redeem(input(false), b"").unwrap();
    assert_eq!(inner_of(&p).inputs[1].redeem_script, Some(vec![]));
}

#[test]
fn redeem_script_with_odd_length_leaves_psst_untouched() {
    let mut p = PSST::from(State::Constructor(Inner::default()));
    let r = p.input_with_redeem(input(false), b"abc");
    assert_eq!(r.err(), Some(PsstError::RedeemScriptNotHex(HexError::OddLength)));
    assert_eq!(role_of(&p), Role::Constructor);
    assert!(inner_of(&p).inputs.is_empty());
}

#[test]
fn redeem_script_with_bad_digit() {
    let mut p = PSST::from(State::Constructor(Inner::default()));
    let r = p.input_with_redeem(input(false), b"00zg");
    assert_eq!(
        r.err(),
        Some(PsstError::RedeemScriptNotHex(HexError::InvalidHexCharacter { c: 'z', index: 2 }))
    );
    assert!(p.has_state());
    let mut q = PSST::from(State::Creator(Inner::default()));
    let r = q.input_with_redeem(input(false), b"00");
    assert_eq!(r.err(), Some(PsstError::ExpectedState(Role::Constructor)));
}

#[test]
fn display_names() {
    assert_eq!(State::NoOp(None).display(), "Init");
    assert_eq!(State::Creator(Inner::default()).display(), "Creator");
    assert_eq!(State::Constructor(Inner::default()).display(), "Constructor");
    assert_eq!(State::Updater(Inner::default()).display(), "Updater");
    assert_eq!(State::Signer(Inner::default()).display(), "Signer");
    assert_eq!(State::Combiner(Inner::default()).display(), "Combiner");
    assert_eq!(State::Finalizer(Inner::default()).display(), "Finalizer");
    assert_eq!(State::Extractor(Inner::default()).display(), "Extractor");
    assert_eq!(PSST::from(State::NoOp(None)).role_getter(), "Init");
}

#[test]
fn binary_payloads_are_recognised() {
    assert!(Payload::new("PSST0102".to_string()).is_binary());
    assert!(Payload::new("PSST".to_string()).is_binary());
    assert!(!Payload::new("PSS".to_string()).is_binary());
    assert!(!Payload::new("{\"state\":\"NoOp\"}".to_string()).is_binary());
    assert!(!Payload::new("psst".to_string()).is_binary());
    assert_eq!(Payload::new("abc".to_string()).as_text(), "abc");
}

#[test]
fn signer_payload_only_for_signers() {
    let mut inner = Inner::default();
    inner.inputs.push(input(false));
    let p = PSST::from(State::Signer(inner));
    assert_eq!(p.signer_payload().map(|i| i.inputs.len()), Ok(1));
    let q = PSST::from(State::Combiner(Inner::default()));
    assert_eq!(q.signer_payload().err(), Some(PsstError::ExpectedState(Role::Signer)));
    assert_eq!(role_of(&q), Role::Combiner);
}

#[test]
fn mass_candidate_finalizes_with_placeholders() {
    let mut inner = Inner::default();
    inner.inputs.push(input(false));
    inner.inputs.push(input(true));
    inner.outputs.push(Output { amount: 3, script_public_key: vec![9] });
    let mut p = PSST::from(State::Combiner(inner));
    let candidate = p.mass_candidate().unwrap();
    assert_eq!(role_of(&p), Role::Finalizer);
    assert_eq!(candidate.inputs.len(), 2);
    for i in &candidate.inputs {
        assert_eq!(i.final_script_sig, Some(vec![0u8, 65u8]));
        assert_eq!(i.amount, 5_000);
    }
    assert_eq!(candidate.outputs.len(), 1);
    assert_eq!(inner_of(&p).inputs[0].final_script_sig, None);
}

#[test]
fn mass_candidate_refuses_redeem_scripts() {
    let mut with_script = input(false);
    with_script.redeem_script = Some(vec![1]);
    let mut inner = Inner::default();
    inner.inputs.push(with_script);
    let mut p = PSST::from(State::NoOp(Some(inner)));
    assert_eq!(p.mass_candidate().err(), Some(PsstError::MassWithRedeemScript));
    assert_eq!(role_of(&p), Role::Finalizer);
}

#[test]
fn mass_candidate_needs_the_finalizer_role() {
    let mut p = PSST::from(State::Signer(Inner::default()));
    assert_eq!(p.mass_candidate().err(), Some(PsstError::UnsupportedTransition(Role::Signer)));
    assert!(!p.has_state());
}

#[test]
fn creator_never_succeeds_after_construction() {
    let mut p = PSST::from(State::Creator(Inner::default()));
    p.constructor().unwrap();
    let mut q = PSST::from(State::Constructor(Inner::default()));
    assert!(q.creator().is_err());
    let mut r = PSST::from(State::NoOp(Some(Inner::default())));
    r.updater().unwrap();
    assert!(r.creator().is_err());
}
