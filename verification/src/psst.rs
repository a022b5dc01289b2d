//! Partially signed Spectre transactions (PSST) and the role machine that
//! moves one through its life: creation, construction, update, signing,
//! combination, finalization and extraction.

use vstd::prelude::*;

use crate::hex_codec::{hex_decode, hex_decoding, HexError};

verus! {

// ---------------------------------------------------------------------------
// Payload
// ---------------------------------------------------------------------------

/// One transaction input of a PSST.
pub struct Input {
    /// Id of the transaction whose output is spent.
    pub transaction_id: Vec<u8>,
    /// Index of the spent output in that transaction.
    pub index: u32,
    /// Amount of the spent output, in sompi.
    pub amount: u64,
    /// Locking script of the spent output.
    pub script_public_key: Vec<u8>,
    /// Sequence number, once an updater has set one.
    pub sequence: Option<u64>,
    /// Number of signature operations the input declares.
    pub sig_op_count: u8,
    /// Redeem script of a pay-to-script-hash input.
    pub redeem_script: Option<Vec<u8>>,
    /// Final signature script, once the input is finalized.
    pub final_script_sig: Option<Vec<u8>>,
}

/// One transaction output of a PSST.
pub struct Output {
    /// Amount in sompi.
    pub amount: u64,
    /// Locking script.
    pub script_public_key: Vec<u8>,
}

/// The transaction data a PSST carries, whatever its role.
pub struct Inner {
    /// Lock time to use when no input asks for one.
    pub fallback_lock_time: Option<u64>,
    /// Whether constructors may still add inputs.
    pub inputs_modifiable: bool,
    /// Whether constructors may still add outputs.
    pub outputs_modifiable: bool,
    pub inputs: Vec<Input>,
    pub outputs: Vec<Output>,
}

pub struct InputView {
    pub transaction_id: Seq<u8>,
    pub index: u32,
    pub amount: u64,
    pub script_public_key: Seq<u8>,
    pub sequence: Option<u64>,
    pub sig_op_count: u8,
    pub redeem_script: Option<Seq<u8>>,
    pub final_script_sig: Option<Seq<u8>>,
}

pub struct OutputView {
    pub amount: u64,
    pub script_public_key: Seq<u8>,
}

pub struct InnerView {
    pub fallback_lock_time: Option<u64>,
    pub inputs_modifiable: bool,
    pub outputs_modifiable: bool,
    pub inputs: Seq<InputView>,
    pub outputs: Seq<OutputView>,
}

pub open spec fn bytes_view(o: Option<Vec<u8>>) -> Option<Seq<u8>> {
    match o {
        Some(v) => Some(v@),
        None => None,
    }
}

impl View for Input {
    type V = InputView;

    open spec fn view(&self) -> InputView {
        InputView {
            transaction_id: self.transaction_id@,
            index: self.index,
            amount: self.amount,
            script_public_key: self.script_public_key@,
            sequence: self.sequence,
            sig_op_count: self.sig_op_count,
            redeem_script: bytes_view(self.redeem_script),
            final_script_sig: bytes_view(self.final_script_sig),
        }
    }
}

impl View for Output {
    type V = OutputView;

    open spec fn view(&self) -> OutputView {
        OutputView { amount: self.amount, script_public_key: self.script_public_key@ }
    }
}

pub open spec fn inputs_view(inputs: Seq<Input>) -> Seq<InputView> {
    inputs.map_values(|i: Input| i@)
}

pub open spec fn outputs_view(outputs: Seq<Output>) -> Seq<OutputView> {
    outputs.map_values(|o: Output| o@)
}

impl View for Inner {
    type V = InnerView;

    open spec fn view(&self) -> InnerView {
        InnerView {
            fallback_lock_time: self.fallback_lock_time,
            inputs_modifiable: self.inputs_modifiable,
            outputs_modifiable: self.outputs_modifiable,
            inputs: inputs_view(self.inputs@),
            outputs: outputs_view(self.outputs@),
        }
    }
}

/// The payload of a freshly created PSST: no inputs, no outputs, no
/// fallback lock time, nothing modifiable.
pub open spec fn empty_inner() -> InnerView {
    InnerView {
        fallback_lock_time: None,
        inputs_modifiable: false,
        outputs_modifiable: false,
        inputs: Seq::empty(),
        outputs: Seq::empty(),
    }
}

fn copy_bytes(v: &Vec<u8>) -> (r: Vec<u8>)
    ensures
        r@ == v@,
{
    let mut r: Vec<u8> = Vec::new();
    let mut k: usize = 0;
    while k < v.len()
        invariant
            k <= v.len(),
            r@ == v@.take(k as int),
        decreases v.len() - k,
    {
        r.push(v[k]);
        k = k + 1;
        assert(r@ =~= v@.take(k as int));
    }
    assert(v@.take(v.len() as int) =~= v@);
    r
}

fn copy_opt_bytes(o: &Option<Vec<u8>>) -> (r: Option<Vec<u8>>)
    ensures
        bytes_view(r) == bytes_view(*o),
{
    match o {
        Some(v) => Some(copy_bytes(v)),
        None => None,
    }
}

impl Clone for Input {
    fn clone(&self) -> (r: Self)
        ensures
            r@ == self@,
    {
        Input {
            transaction_id: copy_bytes(&self.transaction_id),
            index: self.index,
            amount: self.amount,
            script_public_key: copy_bytes(&self.script_public_key),
            sequence: self.sequence,
            sig_op_count: self.sig_op_count,
            redeem_script: copy_opt_bytes(&self.redeem_script),
            final_script_sig: copy_opt_bytes(&self.final_script_sig),
        }
    }
}

impl Clone for Output {
    fn clone(&self) -> (r: Self)
        ensures
            r@ == self@,
    {
        Output { amount: self.amount, script_public_key: copy_bytes(&self.script_public_key) }
    }
}

fn copy_inputs(v: &Vec<Input>) -> (r: Vec<Input>)
    ensures
        inputs_view(r@) == inputs_view(v@),
{
    let mut r: Vec<Input> = Vec::new();
    let mut k: usize = 0;
    while k < v.len()
        invariant
            k <= v.len(),
            inputs_view(r@) == inputs_view(v@.take(k as int)),
        decreases v.len() - k,
    {
        let item = v[k].clone();
        proof {
            assert(inputs_view(r@.push(item)) =~= inputs_view(r@).push(item@));
            assert(inputs_view(v@.take(k + 1)) =~= inputs_view(v@.take(k as int)).push(v@[k as int]@));
        }
        r.push(item);
        k = k + 1;
    }
    assert(v@.take(v.len() as int) =~= v@);
    r
}

fn copy_outputs(v: &Vec<Output>) -> (r: Vec<Output>)
    ensures
        outputs_view(r@) == outputs_view(v@),
{
    let mut r: Vec<Output> = Vec::new();
    let mut k: usize = 0;
    while k < v.len()
        invariant
            k <= v.len(),
            outputs_view(r@) == outputs_view(v@.take(k as int)),
        decreases v.len() - k,
    {
        let item = v[k].clone();
        proof {
            assert(outputs_view(r@.push(item)) =~= outputs_view(r@).push(item@));
            assert(outputs_view(v@.take(k + 1)) =~= outputs_view(v@.take(k as int)).push(
                v@[k as int]@,
            ));
        }
        r.push(item);
        k = k + 1;
    }
    assert(v@.take(v.len() as int) =~= v@);
    r
}

impl Clone for Inner {
    fn clone(&self) -> (r: Self)
        ensures
            r@ == self@,
    {
        Inner {
            fallback_lock_time: self.fallback_lock_time,
            inputs_modifiable: self.inputs_modifiable,
            outputs_modifiable: self.outputs_modifiable,
            inputs: copy_inputs(&self.inputs),
            outputs: copy_outputs(&self.outputs),
        }
    }
}

impl Inner {
    /// An empty payload.
    pub fn new() -> (r: Inner)
        ensures
            r@ == empty_inner(),
    {
        let r = Inner {
            fallback_lock_time: None,
            inputs_modifiable: false,
            outputs_modifiable: false,
            inputs: Vec::new(),
            outputs: Vec::new(),
        };
        assert(r@.inputs =~= Seq::<InputView>::empty());
        assert(r@.outputs =~= Seq::<OutputView>::empty());
        r
    }
}

impl Default for Inner {
    fn default() -> (r: Inner)
        ensures
            r@ == empty_inner(),
    {
        Inner::new()
    }
}


// ---------------------------------------------------------------------------
// Roles and states
// ---------------------------------------------------------------------------

/// The role a PSST is in; `Init` is a PSST that has not taken a role yet.
#[derive(Clone, Copy, Debug, PartialEq, Eq, Structural)]
pub enum Role {
    Init,
    Creator,
    Constructor,
    Updater,
    Signer,
    Combiner,
    Finalizer,
    Extractor,
}

/// Name under which a role is shown to users.
pub open spec fn role_name(role: Role) -> Seq<char> {
    match role {
        Role::Init => "Init"@,
        Role::Creator => "Creator"@,
        Role::Constructor => "Constructor"@,
        Role::Updater => "Updater"@,
        Role::Signer => "Signer"@,
        Role::Combiner => "Combiner"@,
        Role::Finalizer => "Finalizer"@,
        Role::Extractor => "Extractor"@,
    }
}

impl Role {
    /// Name under which the role is shown to users.
    pub fn display(&self) -> (name: &'static str)
        ensures
            name@ == role_name(*self),
    {
        match self {
            Role::Init => "Init",
            Role::Creator => "Creator",
            Role::Constructor => "Constructor",
            Role::Updater => "Updater",
            Role::Signer => "Signer",
            Role::Combiner => "Combiner",
            Role::Finalizer => "Finalizer",
            Role::Extractor => "Extractor",
        }
    }
}

/// A PSST in one of its roles. `NoOp` holds a payload that was handed in
/// (or none at all) before any role was chosen.
pub enum State {
    NoOp(Option<Inner>),
    Creator(Inner),
    Constructor(Inner),
    Updater(Inner),
    Signer(Inner),
    Combiner(Inner),
    Finalizer(Inner),
    Extractor(Inner),
}

/// A state seen as its role and its payload.
pub struct StateView {
    pub role: Role,
    pub inner: Option<InnerView>,
}

impl View for State {
    type V = StateView;

    open spec fn view(&self) -> StateView {
        match self {
            State::NoOp(o) => StateView {
                role: Role::Init,
                inner: match o {
                    Some(i) => Some(i@),
                    None => None,
                },
            },
            State::Creator(i) => StateView { role: Role::Creator, inner: Some(i@) },
            State::Constructor(i) => StateView { role: Role::Constructor, inner: Some(i@) },
            State::Updater(i) => StateView { role: Role::Updater, inner: Some(i@) },
            State::Signer(i) => StateView { role: Role::Signer, inner: Some(i@) },
            State::Combiner(i) => StateView { role: Role::Combiner, inner: Some(i@) },
            State::Finalizer(i) => StateView { role: Role::Finalizer, inner: Some(i@) },
            State::Extractor(i) => StateView { role: Role::Extractor, inner: Some(i@) },
        }
    }
}

/// The state of `role` holding `inner`.
fn state_in_role(role: Role, inner: Inner) -> (s: State)
    requires
        role != Role::Init,
    ensures
        s@ == (StateView { role, inner: Some(inner@) }),
{
    match role {
        Role::Creator => State::Creator(inner),
        Role::Constructor => State::Constructor(inner),
        Role::Updater => State::Updater(inner),
        Role::Signer => State::Signer(inner),
        Role::Combiner => State::Combiner(inner),
        Role::Finalizer => State::Finalizer(inner),
        _ => State::Extractor(inner),
    }
}

impl State {
    /// The role of this state.
    pub fn role(&self) -> (role: Role)
        ensures
            role == self@.role,
    {
        match self {
            State::NoOp(_) => Role::Init,
            State::Creator(_) => Role::Creator,
            State::Constructor(_) => Role::Constructor,
            State::Updater(_) => Role::Updater,
            State::Signer(_) => Role::Signer,
            State::Combiner(_) => Role::Combiner,
            State::Finalizer(_) => Role::Finalizer,
            State::Extractor(_) => Role::Extractor,
        }
    }

    /// Name of the state's role as shown to users (`Init` before any role).
    pub fn display(&self) -> (name: &'static str)
        ensures
            name@ == role_name(self@.role),
    {
        self.role().display()
    }

    /// Splits the state into its role and its payload.
    fn into_parts(self) -> (parts: (Role, Option<Inner>))
        ensures
            parts.0 == self@.role,
            inner_view_opt(parts.1) == self@.inner,
    {
        match self {
            State::NoOp(o) => (Role::Init, o),
            State::Creator(i) => (Role::Creator, Some(i)),
            State::Constructor(i) => (Role::Constructor, Some(i)),
            State::Updater(i) => (Role::Updater, Some(i)),
            State::Signer(i) => (Role::Signer, Some(i)),
            State::Combiner(i) => (Role::Combiner, Some(i)),
            State::Finalizer(i) => (Role::Finalizer, Some(i)),
            State::Extractor(i) => (Role::Extractor, Some(i)),
        }
    }
}

pub open spec fn inner_view_opt(o: Option<Inner>) -> Option<InnerView> {
    match o {
        Some(i) => Some(i@),
        None => None,
    }
}

// ---------------------------------------------------------------------------
// Errors
// ---------------------------------------------------------------------------

/// Why a request to a PSST was refused.
#[derive(Clone, Copy, Debug, PartialEq, Eq, Structural)]
pub enum PsstError {
    /// A role was asked of a PSST that holds no payload.
    NotInitialized,
    /// A creator was asked of a PSST that already holds a payload.
    CreateNotAllowed,
    /// The requested role cannot follow the role the PSST is in.
    UnsupportedTransition(Role),
    /// The request needs the PSST to be in the given role.
    ExpectedState(Role),
    /// An input index past the last input.
    OutOfBounds,
    /// Extraction was asked while some input has no final signature script.
    TxNotFinalized,
    /// A redeem script that is no hexadecimal text.
    RedeemScriptNotHex(HexError),
    /// Mass is not estimated for a PSST with an input that has a redeem
    /// script.
    MassWithRedeemScript,
}

// ---------------------------------------------------------------------------
// The role machine, as a specification
// ---------------------------------------------------------------------------

/// Roles that may directly precede `to` (a payload without a role may take
/// any role but `Creator`, see `role_change`).
pub open spec fn transition_allowed(from: Role, to: Role) -> bool {
    match to {
        Role::Constructor => from == Role::Creator,
        Role::Updater => from == Role::Constructor,
        Role::Signer => from == Role::Constructor || from == Role::Updater || from == Role::Combiner,
        Role::Combiner => from == Role::Constructor || from == Role::Updater || from == Role::Signer,
        Role::Finalizer => from == Role::Combiner,
        Role::Extractor => from == Role::Finalizer,
        _ => false,
    }
}

/// Every input carries a final signature script.
pub open spec fn all_inputs_finalized(inner: InnerView) -> bool {
    forall|k: int| 0 <= k < inner.inputs.len() ==> (#[trigger] inner.inputs[k]).final_script_sig is Some
}

/// Outcome of asking the state `s` to take the role `target`.
pub open spec fn role_change(target: Role, s: StateView) -> Result<StateView, PsstError> {
    if s.role == Role::Init {
        if target == Role::Creator {
            match s.inner {
                None => Ok(StateView { role: Role::Creator, inner: Some(empty_inner()) }),
                Some(_) => Err(PsstError::CreateNotAllowed),
            }
        } else {
            match s.inner {
                None => Err(PsstError::NotInitialized),
                Some(i) => Ok(StateView { role: target, inner: Some(i) }),
            }
        }
    } else if transition_allowed(s.role, target) {
        if target == Role::Extractor && !all_inputs_finalized(s.inner.unwrap()) {
            Err(PsstError::TxNotFinalized)
        } else {
            Ok(StateView { role: target, inner: s.inner })
        }
    } else {
        Err(PsstError::UnsupportedTransition(s.role))
    }
}

/// Outcome of editing the payload of `s` into `edited`, which is allowed in
/// the role `role` alone.
pub open spec fn edit_in_role(s: StateView, role: Role, edited: InnerView) -> Result<
    StateView,
    PsstError,
> {
    if s.role == role {
        Ok(StateView { role, inner: Some(edited) })
    } else {
        Err(PsstError::ExpectedState(role))
    }
}

pub open spec fn with_fallback_lock_time(s: StateView, lock_time: u64) -> Result<StateView, PsstError> {
    edit_in_role(s, Role::Creator, InnerView { fallback_lock_time: Some(lock_time), ..s.inner.unwrap() })
}

pub open spec fn with_inputs_modifiable(s: StateView) -> Result<StateView, PsstError> {
    edit_in_role(s, Role::Creator, InnerView { inputs_modifiable: true, ..s.inner.unwrap() })
}

pub open spec fn with_outputs_modifiable(s: StateView) -> Result<StateView, PsstError> {
    edit_in_role(s, Role::Creator, InnerView { outputs_modifiable: true, ..s.inner.unwrap() })
}

pub open spec fn with_no_more_inputs(s: StateView) -> Result<StateView, PsstError> {
    edit_in_role(s, Role::Constructor, InnerView { inputs_modifiable: false, ..s.inner.unwrap() })
}

pub open spec fn with_no_more_outputs(s: StateView) -> Result<StateView, PsstError> {
    edit_in_role(s, Role::Constructor, InnerView { outputs_modifiable: false, ..s.inner.unwrap() })
}

pub open spec fn with_input(s: StateView, input: InputView) -> Result<StateView, PsstError> {
    edit_in_role(
        s,
        Role::Constructor,
        InnerView { inputs: s.inner.unwrap().inputs.push(input), ..s.inner.unwrap() },
    )
}

pub open spec fn with_output(s: StateView, output: OutputView) -> Result<StateView, PsstError> {
    edit_in_role(
        s,
        Role::Constructor,
        InnerView { outputs: s.inner.unwrap().outputs.push(output), ..s.inner.unwrap() },
    )
}

pub open spec fn with_sequence(s: StateView, n: u64, input_index: int) -> Result<StateView, PsstError> {
    if s.role == Role::Updater && input_index >= s.inner.unwrap().inputs.len() {
        Err(PsstError::OutOfBounds)
    } else {
        let inputs = s.inner.unwrap().inputs;
        edit_in_role(
            s,
            Role::Updater,
            InnerView {
                inputs: inputs.update(input_index, InputView { sequence: Some(n), ..inputs[input_index] }),
                ..s.inner.unwrap()
            },
        )
    }
}

/// What a handle holds after a request with outcome `outcome`: the new state,
/// or nothing at all when the request was refused.
pub open spec fn held_after(outcome: Result<StateView, PsstError>) -> Option<StateView> {
    match outcome {
        Ok(s) => Some(s),
        Err(_) => None,
    }
}

/// `r` reports the outcome `outcome`: success, or the error.
pub open spec fn reports(r: Result<(), PsstError>, outcome: Result<StateView, PsstError>) -> bool {
    match (r, outcome) {
        (Ok(_), Ok(_)) => true,
        (Err(e), Err(f)) => e == f,
        _ => false,
    }
}


/// Some input carries a redeem script.
pub open spec fn has_redeem_script(inner: InnerView) -> bool {
    exists|k: int| 0 <= k < inner.inputs.len() && (#[trigger] inner.inputs[k]).redeem_script is Some
}

/// The placeholder signature script given to every input when the mass of a
/// PSST is estimated.
pub open spec fn placeholder_signature() -> Seq<u8> {
    seq![0u8, 65u8]
}

/// `inner` with every input finalized by the placeholder signature script.
pub open spec fn with_placeholder_signatures(inner: InnerView) -> InnerView {
    InnerView {
        inputs: Seq::new(
            inner.inputs.len(),
            |k: int| InputView { final_script_sig: Some(placeholder_signature()), ..inner.inputs[k] },
        ),
        ..inner
    }
}

/// The payload whose mass is estimated for the state `s`: the finalizer's
/// payload with placeholder signatures, unless taking the finalizer role is
/// refused or some input has a redeem script.
pub open spec fn mass_candidate_outcome(s: StateView) -> Result<InnerView, PsstError> {
    match role_change(Role::Finalizer, s) {
        Err(e) => Err(e),
        Ok(f) => if has_redeem_script(f.inner.unwrap()) {
            Err(PsstError::MassWithRedeemScript)
        } else {
            Ok(with_placeholder_signatures(f.inner.unwrap()))
        },
    }
}

// ---------------------------------------------------------------------------
// The handle
// ---------------------------------------------------------------------------

/// A handle on a PSST. A granted request changes the state the handle
/// holds; a request that is refused leaves the handle empty: the state it
/// held is gone, and only a new handle can be used again.
pub struct PSST {
    state: Option<State>,
}

impl View for PSST {
    type V = Option<StateView>;

    closed spec fn view(&self) -> Option<StateView> {
        match self.state {
            Some(s) => Some(s@),
            None => None,
        }
    }
}

impl From<State> for PSST {
    fn from(state: State) -> (p: PSST)
        ensures
            p@ == Some(state@),
    {
        PSST { state: Some(state) }
    }
}

impl vstd::std_specs::convert::FromSpecImpl<State> for PSST {
    open spec fn obeys_from_spec() -> bool {
        true
    }

    closed spec fn from_spec(v: State) -> PSST {
        PSST { state: Some(v) }
    }
}

fn may_follow(from: Role, to: Role) -> (b: bool)
    ensures
        b == transition_allowed(from, to),
{
    match to {
        Role::Constructor => from == Role::Creator,
        Role::Updater => from == Role::Constructor,
        Role::Signer => from == Role::Constructor || from == Role::Updater || from == Role::Combiner,
        Role::Combiner => from == Role::Constructor || from == Role::Updater || from == Role::Signer,
        Role::Finalizer => from == Role::Combiner,
        Role::Extractor => from == Role::Finalizer,
        _ => false,
    }
}

fn is_finalized(inner: &Inner) -> (b: bool)
    ensures
        b == all_inputs_finalized(inner@),
{
    let mut k: usize = 0;
    while k < inner.inputs.len()
        invariant
            k <= inner.inputs.len(),
            forall|j: int| 0 <= j < k ==> (#[trigger] inner@.inputs[j]).final_script_sig is Some,
        decreases inner.inputs.len() - k,
    {
        if inner.inputs[k].final_script_sig.is_none() {
            assert(inner@.inputs[k as int].final_script_sig is None);
            return false;
        }
        k = k + 1;
    }
    true
}

impl PSST {
    /// Whether the handle holds a state (it does not after a refused request).
    pub fn has_state(&self) -> (b: bool)
        ensures
            b == self@ is Some,
    {
        self.state.is_some()
    }

    /// The state the handle holds.
    pub fn state(&self) -> (s: Option<&State>)
        ensures
            match s {
                Some(x) => self@ == Some(x@),
                None => self@ is None,
            },
    {
        match &self.state {
            Some(x) => Some(x),
            None => None,
        }
    }

    /// Name of the role the PSST is in.
    pub fn role_getter(&self) -> (name: String)
        requires
            self@ is Some,
        ensures
            name@ == role_name(self@.unwrap().role),
    {
        match &self.state {
            Some(x) => x.display().to_owned(),
            None => String::new(),
        }
    }

    fn take(&mut self) -> (s: State)
        requires
            old(self)@ is Some,
        ensures
            s@ == old(self)@.unwrap(),
            final(self)@ is None,
    {
        match self.state.take() {
            Some(x) => x,
            None => State::NoOp(None),
        }
    }

    fn replace(&mut self, s: State)
        ensures
            final(self)@ == Some(s@),
    {
        self.state = Some(s);
    }

    fn change_role(&mut self, target: Role) -> (r: Result<(), PsstError>)
        requires
            old(self)@ is Some,
            target != Role::Init,
        ensures
            final(self)@ == held_after(role_change(target, old(self)@.unwrap())),
            reports(r, role_change(target, old(self)@.unwrap())),
    {
        let (role, inner) = self.take().into_parts();
        if role == Role::Init {
            if target == Role::Creator {
                match inner {
                    None => {
                        self.replace(State::Creator(Inner::new()));
                        Ok(())
                    },
                    Some(_) => Err(PsstError::CreateNotAllowed),
                }
            } else {
                match inner {
                    None => Err(PsstError::NotInitialized),
                    Some(i) => {
                        self.replace(state_in_role(target, i));
                        Ok(())
                    },
                }
            }
        } else if may_follow(role, target) {
            match inner {
                Some(i) => {
                    if target == Role::Extractor && !is_finalized(&i) {
                        Err(PsstError::TxNotFinalized)
                    } else {
                        self.replace(state_in_role(target, i));
                        Ok(())
                    }
                },
                None => Err(PsstError::NotInitialized),
            }
        } else {
            Err(PsstError::UnsupportedTransition(role))
        }
    }

    /// Takes the creator role; only a PSST without payload can.
    pub fn creator(&mut self) -> (r: Result<(), PsstError>)
        requires
            old(self)@ is Some,
        ensures
            final(self)@ == held_after(role_change(Role::Creator, old(self)@.unwrap())),
            reports(r, role_change(Role::Creator, old(self)@.unwrap())),
    {
        self.change_role(Role::Creator)
    }

    /// Takes the constructor role.
    pub fn constructor(&mut self) -> (r: Result<(), PsstError>)
        requires
            old(self)@ is Some,
        ensures
            final(self)@ == held_after(role_change(Role::Constructor, old(self)@.unwrap())),
            reports(r, role_change(Role::Constructor, old(self)@.unwrap())),
    {
        self.change_role(Role::Constructor)
    }

    /// Takes the updater role.
    pub fn updater(&mut self) -> (r: Result<(), PsstError>)
        requires
            old(self)@ is Some,
        ensures
            final(self)@ == held_after(role_change(Role::Updater, old(self)@.unwrap())),
            reports(r, role_change(Role::Updater, old(self)@.unwrap())),
    {
        self.change_role(Role::Updater)
    }

    /// Takes the signer role.
    pub fn signer(&mut self) -> (r: Result<(), PsstError>)
        requires
            old(self)@ is Some,
        ensures
            final(self)@ == held_after(role_change(Role::Signer, old(self)@.unwrap())),
            reports(r, role_change(Role::Signer, old(self)@.unwrap())),
    {
        self.change_role(Role::Signer)
    }

    /// Takes the combiner role.
    pub fn combiner(&mut self) -> (r: Result<(), PsstError>)
        requires
            old(self)@ is Some,
        ensures
            final(self)@ == held_after(role_change(Role::Combiner, old(self)@.unwrap())),
            reports(r, role_change(Role::Combiner, old(self)@.unwrap())),
    {
        self.change_role(Role::Combiner)
    }

    /// Takes the finalizer role.
    pub fn finalizer(&mut self) -> (r: Result<(), PsstError>)
        requires
            old(self)@ is Some,
        ensures
            final(self)@ == held_after(role_change(Role::Finalizer, old(self)@.unwrap())),
            reports(r, role_change(Role::Finalizer, old(self)@.unwrap())),
    {
        self.change_role(Role::Finalizer)
    }

    /// Takes the extractor role; from a finalizer, every input must carry its
    /// final signature script.
    pub fn extractor(&mut self) -> (r: Result<(), PsstError>)
        requires
            old(self)@ is Some,
        ensures
            final(self)@ == held_after(role_change(Role::Extractor, old(self)@.unwrap())),
            reports(r, role_change(Role::Extractor, old(self)@.unwrap())),
    {
        self.change_role(Role::Extractor)
    }

    /// Sets the fallback lock time; creators only.
    pub fn fallback_lock_time(&mut self, lock_time: u64) -> (r: Result<(), PsstError>)
        requires
            old(self)@ is Some,
        ensures
            final(self)@ == held_after(with_fallback_lock_time(old(self)@.unwrap(), lock_time)),
            reports(r, with_fallback_lock_time(old(self)@.unwrap(), lock_time)),
    {
        match self.take() {
            State::Creator(mut inner) => {
                inner.fallback_lock_time = Some(lock_time);
                self.replace(State::Creator(inner));
                Ok(())
            },
            _ => Err(PsstError::ExpectedState(Role::Creator)),
        }
    }

    /// Lets constructors add inputs; creators only.
    pub fn inputs_modifiable(&mut self) -> (r: Result<(), PsstError>)
        requires
            old(self)@ is Some,
        ensures
            final(self)@ == held_after(with_inputs_modifiable(old(self)@.unwrap())),
            reports(r, with_inputs_modifiable(old(self)@.unwrap())),
    {
        match self.take() {
            State::Creator(mut inner) => {
                inner.inputs_modifiable = true;
                self.replace(State::Creator(inner));
                Ok(())
            },
            _ => Err(PsstError::ExpectedState(Role::Creator)),
        }
    }

    /// Lets constructors add outputs; creators only.
    pub fn outputs_modifiable(&mut self) -> (r: Result<(), PsstError>)
        requires
            old(self)@ is Some,
        ensures
            final(self)@ == held_after(with_outputs_modifiable(old(self)@.unwrap())),
            reports(r, with_outputs_modifiable(old(self)@.unwrap())),
    {
        match self.take() {
            State::Creator(mut inner) => {
                inner.outputs_modifiable = true;
                self.replace(State::Creator(inner));
                Ok(())
            },
            _ => Err(PsstError::ExpectedState(Role::Creator)),
        }
    }

    /// Closes the inputs to further additions; constructors only.
    pub fn no_more_inputs(&mut self) -> (r: Result<(), PsstError>)
        requires
            old(self)@ is Some,
        ensures
            final(self)@ == held_after(with_no_more_inputs(old(self)@.unwrap())),
            reports(r, with_no_more_inputs(old(self)@.unwrap())),
    {
        match self.take() {
            State::Constructor(mut inner) => {
                inner.inputs_modifiable = false;
                self.replace(State::Constructor(inner));
                Ok(())
            },
            _ => Err(PsstError::ExpectedState(Role::Constructor)),
        }
    }

    /// Closes the outputs to further additions; constructors only.
    pub fn no_more_outputs(&mut self) -> (r: Result<(), PsstError>)
        requires
            old(self)@ is Some,
        ensures
            final(self)@ == held_after(with_no_more_outputs(old(self)@.unwrap())),
            reports(r, with_no_more_outputs(old(self)@.unwrap())),
    {
        match self.take() {
            State::Constructor(mut inner) => {
                inner.outputs_modifiable = false;
                self.replace(State::Constructor(inner));
                Ok(())
            },
            _ => Err(PsstError::ExpectedState(Role::Constructor)),
        }
    }

    /// Appends an input; constructors only.
    pub fn input(&mut self, input: Input) -> (r: Result<(), PsstError>)
        requires
            old(self)@ is Some,
        ensures
            final(self)@ == held_after(with_input(old(self)@.unwrap(), input@)),
            reports(r, with_input(old(self)@.unwrap(), input@)),
    {
        match self.take() {
            State::Constructor(mut inner) => {
                let ghost before = inner@;
                let ghost item = input@;
                inner.inputs.push(input);
                assert(inner@.inputs =~= before.inputs.push(item));
                self.replace(State::Constructor(inner));
                Ok(())
            },
            _ => Err(PsstError::ExpectedState(Role::Constructor)),
        }
    }

    /// Appends an input that spends through `redeem_script`, given as
    /// hexadecimal text. A text that is no hexadecimal encoding is refused
    /// before the PSST is touched; otherwise constructors only.
    pub fn input_with_redeem(&mut self, input: Input, redeem_script: &[u8]) -> (r: Result<(), PsstError>)
        requires
            hex_decoding(redeem_script@) is Ok ==> old(self)@ is Some,
        ensures
            match hex_decoding(redeem_script@) {
                Err(e) => {
                    &&& r matches Err(f) && f == PsstError::RedeemScriptNotHex(e)
                    &&& final(self)@ == old(self)@
                },
                Ok(script) => {
                    let item = InputView { redeem_script: Some(script), ..input@ };
                    &&& final(self)@ == held_after(with_input(old(self)@.unwrap(), item))
                    &&& reports(r, with_input(old(self)@.unwrap(), item))
                },
            },
    {
        match hex_decode(redeem_script) {
            Err(e) => Err(PsstError::RedeemScriptNotHex(e)),
            Ok(script) => {
                let mut input = input;
                input.redeem_script = Some(script);
                self.input(input)
            },
        }
    }

    /// Appends an output; constructors only.
    pub fn output(&mut self, output: Output) -> (r: Result<(), PsstError>)
        requires
            old(self)@ is Some,
        ensures
            final(self)@ == held_after(with_output(old(self)@.unwrap(), output@)),
            reports(r, with_output(old(self)@.unwrap(), output@)),
    {
        match self.take() {
            State::Constructor(mut inner) => {
                let ghost before = inner@;
                let ghost item = output@;
                inner.outputs.push(output);
                assert(inner@.outputs =~= before.outputs.push(item));
                self.replace(State::Constructor(inner));
                Ok(())
            },
            _ => Err(PsstError::ExpectedState(Role::Constructor)),
        }
    }

    /// Sets the sequence number of input `input_index`; updaters only.
    pub fn set_sequence(&mut self, n: u64, input_index: usize) -> (r: Result<(), PsstError>)
        requires
            old(self)@ is Some,
        ensures
            final(self)@ == held_after(with_sequence(old(self)@.unwrap(), n, input_index as int)),
            reports(r, with_sequence(old(self)@.unwrap(), n, input_index as int)),
    {
        match self.take() {
            State::Updater(mut inner) => {
                if input_index >= inner.inputs.len() {
                    return Err(PsstError::OutOfBounds);
                }
                let ghost before = inner@;
                let mut item = inner.inputs[input_index].clone();
                item.sequence = Some(n);
                let ghost item_view = item@;
                inner.inputs.set(input_index, item);
                assert(inner@.inputs =~= before.inputs.update(input_index as int, item_view));
                self.replace(State::Updater(inner));
                Ok(())
            },
            _ => Err(PsstError::ExpectedState(Role::Updater)),
        }
    }

    /// The payload of a signer, from which the transaction id is computed;
    /// any other role is refused and the state is left as it is.
    pub fn signer_payload(&self) -> (r: Result<&Inner, PsstError>)
        requires
            self@ is Some,
        ensures
            self@.unwrap().role == Role::Signer ==> (r matches Ok(i) && Some(i@)
                == self@.unwrap().inner),
            self@.unwrap().role != Role::Signer ==> (r matches Err(e) && e == PsstError::ExpectedState(
                Role::Signer,
            )),
    {
        match &self.state {
            Some(State::Signer(inner)) => Ok(inner),
            _ => Err(PsstError::ExpectedState(Role::Signer)),
        }
    }

    /// The payload whose mass is estimated. The handle itself is moved to the
    /// finalizer role first (and emptied if that is refused); a PSST with an
    /// input that has a redeem script is refused; otherwise the result is the
    /// finalizer's payload with every input finalized by the placeholder
    /// signature script, while the handle keeps the finalizer's state.
    #[verifier::loop_isolation(false)]
    pub fn mass_candidate(&mut self) -> (r: Result<Inner, PsstError>)
        requires
            old(self)@ is Some,
        ensures
            final(self)@ == held_after(role_change(Role::Finalizer, old(self)@.unwrap())),
            match mass_candidate_outcome(old(self)@.unwrap()) {
                Ok(i) => r matches Ok(x) && x@ == i,
                Err(e) => r matches Err(f) && f == e,
            },
    {
        match self.finalizer() {
            Err(e) => return Err(e),
            Ok(()) => {},
        }
        let inner = match &self.state {
            Some(State::Finalizer(i)) => i.clone(),
            _ => return Err(PsstError::NotInitialized),
        };
        let mut k: usize = 0;
        while k < inner.inputs.len()
            invariant
                k <= inner.inputs.len(),
                forall|j: int| 0 <= j < k ==> (#[trigger] inner@.inputs[j]).redeem_script is None,
            decreases inner.inputs.len() - k,
        {
            if inner.inputs[k].redeem_script.is_some() {
                assert(inner@.inputs[k as int].redeem_script is Some);
                return Err(PsstError::MassWithRedeemScript);
            }
            k = k + 1;
        }
        let ghost target = with_placeholder_signatures(inner@);
        let mut inputs: Vec<Input> = Vec::new();
        let mut k: usize = 0;
        while k < inner.inputs.len()
            invariant
                k <= inner.inputs.len(),
                target == with_placeholder_signatures(inner@),
                inputs_view(inputs@) == target.inputs.take(k as int),
            decreases inner.inputs.len() - k,
        {
            let mut item = inner.inputs[k].clone();
            item.final_script_sig = Some(vec![0u8, 65u8]);
            proof {
                assert(item@.final_script_sig == Some(placeholder_signature()));
                assert(item@ == target.inputs[k as int]);
                assert(inputs_view(inputs@.push(item)) =~= inputs_view(inputs@).push(item@));
                assert(target.inputs.take(k + 1) =~= target.inputs.take(k as int).push(item@));
            }
            inputs.push(item);
            k = k + 1;
        }
        assert(target.inputs.take(k as int) =~= target.inputs);
        let candidate = Inner {
            fallback_lock_time: inner.fallback_lock_time,
            inputs_modifiable: inner.inputs_modifiable,
            outputs_modifiable: inner.outputs_modifiable,
            inputs,
            outputs: inner.outputs,
        };
        Ok(candidate)
    }
}

// ---------------------------------------------------------------------------
// Serialized payloads
// ---------------------------------------------------------------------------

/// A serialized PSST handed in from outside: JSON text, or the binary form,
/// which starts with `PSST`.
pub struct Payload {
    data: String,
}

impl Payload {
    pub fn new(data: String) -> (p: Payload)
        ensures
            p.data()@ == data@,
    {
        Payload { data }
    }

    pub closed spec fn data(&self) -> String {
        self.data
    }

    /// The serialized text.
    pub fn as_text(&self) -> (text: &str)
        ensures
            text@ == self.data()@,
    {
        self.data.as_str()
    }

    /// Whether the payload is in the binary form (which no reader supports
    /// yet); otherwise it is read as JSON.
    pub fn is_binary(&self) -> (b: bool)
        ensures
            b == (self.data()@.len() >= 4 && self.data()@.subrange(0, 4) == "PSST"@),
    {
        let s = self.data.as_str();
        proof {
            reveal_strlit("PSST");
        }
        if s.unicode_len() < 4 {
            return false;
        }
        let c0 = s.get_char(0);
        let c1 = s.get_char(1);
        let c2 = s.get_char(2);
        let c3 = s.get_char(3);
        let b = c0 == 'P' && c1 == 'S' && c2 == 'S' && c3 == 'T';
        proof {
            if b {
                assert(s@.subrange(0, 4) =~= "PSST"@);
            } else {
                if s@.subrange(0, 4) == "PSST"@ {
                    assert(s@.subrange(0, 4)[0] == 'P');
                    assert(s@.subrange(0, 4)[1] == 'S');
                    assert(s@.subrange(0, 4)[2] == 'S');
                    assert(s@.subrange(0, 4)[3] == 'T');
                }
            }
        }
        b
    }
}

} // verus!
