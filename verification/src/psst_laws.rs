//! Laws of the PSST role machine.

use vstd::prelude::*;

use crate::hex_codec::hex_decoding;
use crate::psst::{
    all_inputs_finalized, empty_inner, held_after, role_change, with_fallback_lock_time, with_input,
    with_inputs_modifiable, with_no_more_inputs, with_no_more_outputs, with_output,
    with_outputs_modifiable, with_sequence, mass_candidate_outcome, role_name, InnerView, InputView,
    OutputView, PsstError, Role, StateView,
};

verus! {

/// Position of a role in a PSST's life; signer and combiner share one, as
/// either may hand over to the other.
pub open spec fn role_rank(role: Role) -> nat {
    match role {
        Role::Init => 0,
        Role::Creator => 1,
        Role::Constructor => 2,
        Role::Updater => 3,
        Role::Signer => 4,
        Role::Combiner => 4,
        Role::Finalizer => 5,
        Role::Extractor => 6,
    }
}

/// A granted role change puts the PSST in the role that was asked for, and a
/// PSST that already has a role never moves back to an earlier one.
pub proof fn lemma_roles_move_forward(target: Role, s: StateView)
    requires
        role_change(target, s) is Ok,
    ensures
        role_change(target, s)->Ok_0.role == target,
        s.role != Role::Init ==> role_rank(s.role) <= role_rank(target),
{
}

/// A granted role change carries the payload over unchanged; only the
/// creation of a PSST from nothing starts an empty payload.
pub proof fn lemma_role_change_keeps_payload(target: Role, s: StateView)
    requires
        role_change(target, s) is Ok,
    ensures
        (s.role == Role::Init && target == Role::Creator) ==> role_change(target, s)->Ok_0.inner
            == Some(empty_inner()),
        !(s.role == Role::Init && target == Role::Creator) ==> role_change(target, s)->Ok_0.inner
            == s.inner,
{
}

/// A creator is only ever made from a PSST that holds no payload at all.
pub proof fn lemma_creator_only_from_nothing(s: StateView)
    requires
        role_change(Role::Creator, s) is Ok,
    ensures
        s.role == Role::Init,
        s.inner is None,
{
}

/// An extracted PSST takes no other role.
pub proof fn lemma_extractor_is_final(target: Role, s: StateView)
    requires
        s.role == Role::Extractor,
    ensures
        role_change(target, s) is Err,
{
}

/// A finalizer becomes an extractor exactly when all its inputs carry their
/// final signature scripts.
pub proof fn lemma_extraction_needs_finalized_inputs(s: StateView)
    requires
        s.role == Role::Finalizer,
        s.inner is Some,
    ensures
        role_change(Role::Extractor, s) is Ok <==> all_inputs_finalized(s.inner.unwrap()),
{
}

/// Editing the payload never changes the role, and touches only what the
/// edit names: adding an input appends it and leaves everything else as is.
pub proof fn lemma_input_appends(s: StateView, input: InputView)
    requires
        with_input(s, input) is Ok,
    ensures
        with_input(s, input)->Ok_0.role == s.role,
        with_input(s, input)->Ok_0.inner.unwrap().inputs == s.inner.unwrap().inputs.push(input),
        with_input(s, input)->Ok_0.inner.unwrap().outputs == s.inner.unwrap().outputs,
        with_input(s, input)->Ok_0.inner.unwrap().fallback_lock_time
            == s.inner.unwrap().fallback_lock_time,
{
}

/// Setting a sequence number changes that input's sequence and nothing else.
pub proof fn lemma_sequence_touches_one_input(s: StateView, n: u64, index: usize)
    requires
        with_sequence(s, n, index as int) is Ok,
    ensures
        with_sequence(s, n, index as int)->Ok_0.role == Role::Updater,
        index < s.inner.unwrap().inputs.len(),
        with_sequence(s, n, index as int)->Ok_0.inner.unwrap().inputs.len() == s.inner.unwrap().inputs.len(),
        with_sequence(s, n, index as int)->Ok_0.inner.unwrap().inputs[index as int].sequence == Some(n),
        forall|k: int|
            0 <= k < s.inner.unwrap().inputs.len() && k != index ==> (
            #[trigger] with_sequence(s, n, index as int)->Ok_0.inner.unwrap().inputs[k]) == s.inner.unwrap().inputs[k],
{
}


/// A request made through a PSST handle that may change what it holds.
pub enum Request {
    ToRole(Role),
    FallbackLockTime(u64),
    InputsModifiable,
    OutputsModifiable,
    NoMoreInputs,
    NoMoreOutputs,
    Input(InputView),
    InputWithRedeem(InputView, Seq<u8>),
    Output(OutputView),
    SetSequence(u64, usize),
    MassCandidate,
}

/// What a handle holding `s` holds after `req`, as the contract of the
/// matching `PSST` method states it (`ToRole(r)` is the method taking role
/// `r`; `MassCandidate` first takes the finalizer role).
pub open spec fn next_held(req: Request, s: StateView) -> Option<StateView> {
    match req {
        Request::ToRole(r) => held_after(role_change(r, s)),
        Request::FallbackLockTime(t) => held_after(with_fallback_lock_time(s, t)),
        Request::InputsModifiable => held_after(with_inputs_modifiable(s)),
        Request::OutputsModifiable => held_after(with_outputs_modifiable(s)),
        Request::NoMoreInputs => held_after(with_no_more_inputs(s)),
        Request::NoMoreOutputs => held_after(with_no_more_outputs(s)),
        Request::Input(i) => held_after(with_input(s, i)),
        Request::InputWithRedeem(i, text) => match hex_decoding(text) {
            Err(_) => Some(s),
            Ok(script) => held_after(with_input(s, InputView { redeem_script: Some(script), ..i })),
        },
        Request::Output(o) => held_after(with_output(s, o)),
        Request::SetSequence(n, index) => held_after(with_sequence(s, n, index as int)),
        Request::MassCandidate => held_after(role_change(Role::Finalizer, s)),
    }
}

/// What a handle holding `s` holds after the requests `reqs`, made in order;
/// `None` once a request has been refused (a handle left empty takes no
/// further requests).
pub open spec fn run(reqs: Seq<Request>, s: StateView) -> Option<StateView>
    decreases reqs.len(),
{
    if reqs.len() == 0 {
        Some(s)
    } else {
        match next_held(reqs[0], s) {
            None => None,
            Some(t) => run(reqs.drop_first(), t),
        }
    }
}

proof fn lemma_step_keeps_payload(req: Request, s: StateView)
    requires
        s.inner is Some,
    ensures
        next_held(req, s) matches Some(t) ==> t.inner is Some,
{
}

/// A handle that holds a payload (as every handle made by the PSST
/// constructor does: a fresh creator, or a given payload) never loses it
/// through any sequence of requests; so it never again holds the bare
/// initial state, and asking it for the creator role is always refused.
pub proof fn lemma_creator_never_reachable(reqs: Seq<Request>, s: StateView)
    requires
        s.inner is Some,
    ensures
        run(reqs, s) matches Some(t) ==> (t.inner is Some && role_change(Role::Creator, t) is Err),
    decreases reqs.len(),
{
    if reqs.len() > 0 {
        lemma_step_keeps_payload(reqs[0], s);
        match next_held(reqs[0], s) {
            None => {},
            Some(t) => lemma_creator_never_reachable(reqs.drop_first(), t),
        }
    }
}


/// The state of role `role` holding the payload `i`.
pub open spec fn holding(role: Role, i: InnerView) -> StateView {
    StateView { role, inner: Some(i) }
}

/// Every role change a PSST with a role is granted, each listed: the PSST
/// takes the new role and keeps its payload.
pub proof fn lemma_granted_role_changes(i: InnerView)
    ensures
        role_change(Role::Constructor, holding(Role::Creator, i)) == Ok::<StateView, PsstError>(
            holding(Role::Constructor, i),
        ),
        role_change(Role::Updater, holding(Role::Constructor, i)) == Ok::<StateView, PsstError>(
            holding(Role::Updater, i),
        ),
        role_change(Role::Signer, holding(Role::Constructor, i)) == Ok::<StateView, PsstError>(
            holding(Role::Signer, i),
        ),
        role_change(Role::Signer, holding(Role::Updater, i)) == Ok::<StateView, PsstError>(
            holding(Role::Signer, i),
        ),
        role_change(Role::Signer, holding(Role::Combiner, i)) == Ok::<StateView, PsstError>(
            holding(Role::Signer, i),
        ),
        role_change(Role::Combiner, holding(Role::Constructor, i)) == Ok::<StateView, PsstError>(
            holding(Role::Combiner, i),
        ),
        role_change(Role::Combiner, holding(Role::Updater, i)) == Ok::<StateView, PsstError>(
            holding(Role::Combiner, i),
        ),
        role_change(Role::Combiner, holding(Role::Signer, i)) == Ok::<StateView, PsstError>(
            holding(Role::Combiner, i),
        ),
        role_change(Role::Finalizer, holding(Role::Combiner, i)) == Ok::<StateView, PsstError>(
            holding(Role::Finalizer, i),
        ),
        (forall|k: int| 0 <= k < i.inputs.len() ==> (#[trigger] i.inputs[k]).final_script_sig is Some)
            ==> role_change(Role::Extractor, holding(Role::Finalizer, i)) == Ok::<
            StateView,
            PsstError,
        >(holding(Role::Extractor, i)),
{
}

/// Every other role change of a PSST with a role is refused, naming the role
/// it is in.
pub proof fn lemma_refused_role_changes(from: Role, to: Role, i: InnerView)
    requires
        from != Role::Init,
        !((from == Role::Creator && to == Role::Constructor) || (from == Role::Constructor && to
            == Role::Updater) || (from == Role::Constructor && to == Role::Signer) || (from
            == Role::Updater && to == Role::Signer) || (from == Role::Combiner && to == Role::Signer)
            || (from == Role::Constructor && to == Role::Combiner) || (from == Role::Updater && to
            == Role::Combiner) || (from == Role::Signer && to == Role::Combiner) || (from
            == Role::Combiner && to == Role::Finalizer) || (from == Role::Finalizer && to
            == Role::Extractor)),
    ensures
        role_change(to, holding(from, i)) == Err::<StateView, PsstError>(
            PsstError::UnsupportedTransition(from),
        ),
{
}

/// A finalizer with an input that has no final signature script is not
/// extracted.
pub proof fn lemma_unfinalized_extraction_refused(i: InnerView, k: int)
    requires
        0 <= k < i.inputs.len(),
        i.inputs[k].final_script_sig is None,
    ensures
        role_change(Role::Extractor, holding(Role::Finalizer, i)) == Err::<StateView, PsstError>(
            PsstError::TxNotFinalized,
        ),
{
}

/// A PSST without a role: with no payload it only becomes an empty creator;
/// with a payload it takes any role but creator, keeping the payload.
pub proof fn lemma_initial_role_changes(to: Role, i: InnerView)
    requires
        to != Role::Init,
    ensures
        role_change(Role::Creator, StateView { role: Role::Init, inner: None }) == Ok::<
            StateView,
            PsstError,
        >(holding(Role::Creator, empty_inner())),
        to != Role::Creator ==> role_change(to, StateView { role: Role::Init, inner: None }) == Err::<
            StateView,
            PsstError,
        >(PsstError::NotInitialized),
        role_change(Role::Creator, holding(Role::Init, i)) == Err::<StateView, PsstError>(
            PsstError::CreateNotAllowed,
        ),
        to != Role::Creator ==> role_change(to, holding(Role::Init, i)) == Ok::<StateView, PsstError>(
            holding(to, i),
        ),
{
}

/// The creator's settings each set their own field and nothing else, and
/// only a creator may change them.
pub proof fn lemma_creator_settings(role: Role, i: InnerView, lock_time: u64)
    ensures
        with_fallback_lock_time(holding(Role::Creator, i), lock_time) == Ok::<StateView, PsstError>(
            holding(
                Role::Creator,
                InnerView {
                    fallback_lock_time: Some(lock_time),
                    inputs_modifiable: i.inputs_modifiable,
                    outputs_modifiable: i.outputs_modifiable,
                    inputs: i.inputs,
                    outputs: i.outputs,
                },
            ),
        ),
        with_inputs_modifiable(holding(Role::Creator, i)) == Ok::<StateView, PsstError>(
            holding(
                Role::Creator,
                InnerView {
                    fallback_lock_time: i.fallback_lock_time,
                    inputs_modifiable: true,
                    outputs_modifiable: i.outputs_modifiable,
                    inputs: i.inputs,
                    outputs: i.outputs,
                },
            ),
        ),
        with_outputs_modifiable(holding(Role::Creator, i)) == Ok::<StateView, PsstError>(
            holding(
                Role::Creator,
                InnerView {
                    fallback_lock_time: i.fallback_lock_time,
                    inputs_modifiable: i.inputs_modifiable,
                    outputs_modifiable: true,
                    inputs: i.inputs,
                    outputs: i.outputs,
                },
            ),
        ),
        role != Role::Creator ==> with_fallback_lock_time(holding(role, i), lock_time) == Err::<
            StateView,
            PsstError,
        >(PsstError::ExpectedState(Role::Creator)),
        role != Role::Creator ==> with_inputs_modifiable(holding(role, i)) == Err::<
            StateView,
            PsstError,
        >(PsstError::ExpectedState(Role::Creator)),
        role != Role::Creator ==> with_outputs_modifiable(holding(role, i)) == Err::<
            StateView,
            PsstError,
        >(PsstError::ExpectedState(Role::Creator)),
{
}

/// The constructor's edits: inputs and outputs are appended at the end in
/// the order they are added, and closing inputs or outputs clears only its
/// own flag; only a constructor may make them.
pub proof fn lemma_constructor_edits(
    role: Role,
    i: InnerView,
    input: InputView,
    output: OutputView,
)
    ensures
        with_input(holding(Role::Constructor, i), input) == Ok::<StateView, PsstError>(
            holding(
                Role::Constructor,
                InnerView {
                    fallback_lock_time: i.fallback_lock_time,
                    inputs_modifiable: i.inputs_modifiable,
                    outputs_modifiable: i.outputs_modifiable,
                    inputs: i.inputs + seq![input],
                    outputs: i.outputs,
                },
            ),
        ),
        with_output(holding(Role::Constructor, i), output) == Ok::<StateView, PsstError>(
            holding(
                Role::Constructor,
                InnerView {
                    fallback_lock_time: i.fallback_lock_time,
                    inputs_modifiable: i.inputs_modifiable,
                    outputs_modifiable: i.outputs_modifiable,
                    inputs: i.inputs,
                    outputs: i.outputs + seq![output],
                },
            ),
        ),
        with_no_more_inputs(holding(Role::Constructor, i)) == Ok::<StateView, PsstError>(
            holding(
                Role::Constructor,
                InnerView {
                    fallback_lock_time: i.fallback_lock_time,
                    inputs_modifiable: false,
                    outputs_modifiable: i.outputs_modifiable,
                    inputs: i.inputs,
                    outputs: i.outputs,
                },
            ),
        ),
        with_no_more_outputs(holding(Role::Constructor, i)) == Ok::<StateView, PsstError>(
            holding(
                Role::Constructor,
                InnerView {
                    fallback_lock_time: i.fallback_lock_time,
                    inputs_modifiable: i.inputs_modifiable,
                    outputs_modifiable: false,
                    inputs: i.inputs,
                    outputs: i.outputs,
                },
            ),
        ),
        role != Role::Constructor ==> with_input(holding(role, i), input) == Err::<
            StateView,
            PsstError,
        >(PsstError::ExpectedState(Role::Constructor)),
        role != Role::Constructor ==> with_output(holding(role, i), output) == Err::<
            StateView,
            PsstError,
        >(PsstError::ExpectedState(Role::Constructor)),
        role != Role::Constructor ==> with_no_more_inputs(holding(role, i)) == Err::<
            StateView,
            PsstError,
        >(PsstError::ExpectedState(Role::Constructor)),
        role != Role::Constructor ==> with_no_more_outputs(holding(role, i)) == Err::<
            StateView,
            PsstError,
        >(PsstError::ExpectedState(Role::Constructor)),
{
    assert(i.inputs + seq![input] =~= i.inputs.push(input));
    assert(i.outputs + seq![output] =~= i.outputs.push(output));
}

/// Two outputs added one after the other stand in the order they were added,
/// after the outputs already there.
pub proof fn lemma_outputs_keep_order(i: InnerView, first: OutputView, second: OutputView)
    ensures
        ({
            let after_first = with_output(holding(Role::Constructor, i), first)->Ok_0;
            let after_second = with_output(after_first, second)->Ok_0;
            &&& after_second.inner.unwrap().outputs.len() == i.outputs.len() + 2
            &&& after_second.inner.unwrap().outputs[i.outputs.len() as int] == first
            &&& after_second.inner.unwrap().outputs[i.outputs.len() as int + 1] == second
            &&& after_second.inner.unwrap().outputs.subrange(0, i.outputs.len() as int) == i.outputs
        }),
{
    let after_first = with_output(holding(Role::Constructor, i), first)->Ok_0;
    let after_second = with_output(after_first, second)->Ok_0;
    assert(after_second.inner.unwrap().outputs.subrange(0, i.outputs.len() as int) =~= i.outputs);
}

/// An updater setting a sequence number past the last input is refused;
/// any other role may not set one.
pub proof fn lemma_sequence_refusals(role: Role, i: InnerView, n: u64, index: usize)
    ensures
        index >= i.inputs.len() ==> with_sequence(holding(Role::Updater, i), n, index as int) == Err::<
            StateView,
            PsstError,
        >(PsstError::OutOfBounds),
        role != Role::Updater ==> with_sequence(holding(role, i), n, index as int) == Err::<
            StateView,
            PsstError,
        >(PsstError::ExpectedState(Role::Updater)),
{
}

/// The payload whose mass is estimated: any input with a redeem script makes
/// the request refused; a payload handed back has no input with a redeem
/// script, the same inputs each finalized by the two-byte script `[0, 65]`,
/// and the same outputs and settings.
pub proof fn lemma_mass_candidate(s: StateView)
    requires
        s.inner is Some,
    ensures
        (role_change(Role::Finalizer, s) is Ok && exists|k: int|
            0 <= k < s.inner.unwrap().inputs.len() && (#[trigger] s.inner.unwrap().inputs[k]).redeem_script is Some)
            ==> mass_candidate_outcome(s) == Err::<InnerView, PsstError>(
            PsstError::MassWithRedeemScript,
        ),
        mass_candidate_outcome(s) matches Ok(x) ==> {
            let i = s.inner.unwrap();
            &&& x.inputs.len() == i.inputs.len()
            &&& forall|k: int| 0 <= k < i.inputs.len() ==> (#[trigger] i.inputs[k]).redeem_script is None
            &&& forall|k: int|
                0 <= k < i.inputs.len() ==> #[trigger] x.inputs[k] == InputView {
                    transaction_id: i.inputs[k].transaction_id,
                    index: i.inputs[k].index,
                    amount: i.inputs[k].amount,
                    script_public_key: i.inputs[k].script_public_key,
                    sequence: i.inputs[k].sequence,
                    sig_op_count: i.inputs[k].sig_op_count,
                    redeem_script: i.inputs[k].redeem_script,
                    final_script_sig: Some(seq![0u8, 65u8]),
                }
            &&& x.outputs == i.outputs
            &&& x.fallback_lock_time == i.fallback_lock_time
            &&& x.inputs_modifiable == i.inputs_modifiable
            &&& x.outputs_modifiable == i.outputs_modifiable
        },
        s.role == Role::Combiner || s.role == Role::Init ==> role_change(Role::Finalizer, s) is Ok,
{
    if mass_candidate_outcome(s) is Ok {
        let i = s.inner.unwrap();
        assert forall|k: int| 0 <= k < i.inputs.len() implies (#[trigger] i.inputs[k]).redeem_script is None by {
            if i.inputs[k].redeem_script is Some {
                assert(role_change(Role::Finalizer, s)->Ok_0.inner.unwrap().inputs[k] == i.inputs[k]);
            }
        }
    }
}


/// The names under which roles are shown.
pub proof fn lemma_role_names()
    ensures
        role_name(Role::Init) == "Init"@,
        role_name(Role::Creator) == "Creator"@,
        role_name(Role::Constructor) == "Constructor"@,
        role_name(Role::Updater) == "Updater"@,
        role_name(Role::Signer) == "Signer"@,
        role_name(Role::Combiner) == "Combiner"@,
        role_name(Role::Finalizer) == "Finalizer"@,
        role_name(Role::Extractor) == "Extractor"@,
{
}

} // verus!
