//! The validation pipeline: the checks that a command must pass before it
//! may change the vault.
//!
//! A command names an ordered list of check kinds. A registry maps each kind
//! to the validator that implements it. The pipeline runs the checks in
//! order: a failure ends it at once, a warning is noted and the run goes on.

use vstd::prelude::*;
use std::collections::HashMap;
use crate::cli::{CommandInfo, CommandType};
use crate::context::{holds_name, Context};
use crate::errors::ErrorValidation;
use crate::policy::PasswordPolicy;

verus! {

broadcast use vstd::std_specs::hash::group_hash_axioms;

/// The longest entry name, in characters.
pub const MAX_NAME_CHARS: usize = 60;

/// The kinds of check that a command can ask for.
#[derive(Debug, Clone, Copy, PartialEq, Eq, Hash, Structural)]
pub enum ValidationType {
    MasterKeyCheck,
    SessionCheck,
    EntryExistsCheck,
    PasswordRequirementCheck,
}

impl ValidationType {
    /// The key under which a registry files this kind. Distinct kinds have
    /// distinct keys.
    pub open spec fn spec_code(self) -> u64 {
        match self {
            ValidationType::MasterKeyCheck => 0,
            ValidationType::SessionCheck => 1,
            ValidationType::EntryExistsCheck => 2,
            ValidationType::PasswordRequirementCheck => 3,
        }
    }

    #[verifier::when_used_as_spec(spec_code)]
    pub fn code(self) -> (code: u64)
        ensures
            code == self.spec_code(),
    {
        match self {
            ValidationType::MasterKeyCheck => 0,
            ValidationType::SessionCheck => 1,
            ValidationType::EntryExistsCheck => 2,
            ValidationType::PasswordRequirementCheck => 3,
        }
    }
}

/// What one check found, as plain values.
pub enum ValidationOutcome {
    Success,
    Warning(Seq<char>),
    Failure(Seq<char>),
}

/// What one check found.
#[derive(Debug)]
pub enum ValidationResult {
    /// Nothing to report; the run goes on.
    Success,
    /// Something for the operator to read; the run goes on.
    Warning(String),
    /// The command is rejected; no further check runs.
    Failure(String),
}

impl View for ValidationResult {
    type V = ValidationOutcome;

    open spec fn view(&self) -> ValidationOutcome {
        match self {
            ValidationResult::Success => ValidationOutcome::Success,
            ValidationResult::Warning(message) => ValidationOutcome::Warning(message@),
            ValidationResult::Failure(message) => ValidationOutcome::Failure(message@),
        }
    }
}

/// What a run of the pipeline found, as plain values.
pub struct ReportView {
    pub executed: nat,
    pub warnings: Seq<Seq<char>>,
    pub failure: Option<Seq<char>>,
}

/// What a run of the pipeline found: how many checks ran, the warnings in
/// the order they were raised, and the message of the check that failed, if
/// one did.
#[derive(Debug)]
pub struct ValidationReport {
    pub executed: usize,
    pub warnings: Vec<String>,
    pub failure: Option<String>,
}

impl View for ValidationReport {
    type V = ReportView;

    open spec fn view(&self) -> ReportView {
        ReportView {
            executed: self.executed as nat,
            warnings: self.warnings@.map_values(|message: String| message@),
            failure: match self.failure {
                Some(message) => Some(message@),
                None => None,
            },
        }
    }
}

impl ValidationReport {
    /// Whether the command may proceed.
    pub fn passed(&self) -> (ok: bool)
        ensures
            ok == (self@.failure is None),
    {
        self.failure.is_none()
    }
}

/// The report of a run in which no check has run yet.
pub open spec fn empty_report() -> ReportView {
    ReportView { executed: 0, warnings: Seq::empty(), failure: None }
}

/// The report of a command rejected before the pipeline started.
pub open spec fn rejected_report(message: Seq<char>) -> ReportView {
    ReportView { executed: 0, warnings: Seq::empty(), failure: Some(message) }
}

/// The report once the first `n` of the checks have had their turn. A check
/// has no effect, and is not counted, once an earlier one has failed.
pub open spec fn report_after(outcomes: Seq<ValidationOutcome>, n: nat) -> ReportView
    decreases n,
{
    if n == 0 {
        empty_report()
    } else {
        let before = report_after(outcomes, (n - 1) as nat);
        if before.failure is Some {
            before
        } else {
            match outcomes[n - 1] {
                ValidationOutcome::Success => ReportView {
                    executed: before.executed + 1,
                    ..before
                },
                ValidationOutcome::Warning(message) => ReportView {
                    executed: before.executed + 1,
                    warnings: before.warnings.push(message),
                    ..before
                },
                ValidationOutcome::Failure(message) => ReportView {
                    executed: before.executed + 1,
                    failure: Some(message),
                    ..before
                },
            }
        }
    }
}

/// The report of a whole run, given what each check would find.
pub open spec fn report_of(outcomes: Seq<ValidationOutcome>) -> ReportView {
    report_after(outcomes, outcomes.len())
}

/// The behavior behind one kind of check, for commands of type `C`.
///
/// A validator reads the context and the command and changes neither. What
/// it finds is a function of the two: `validate` must return what `outcome`
/// tells, and everything proved of a run rests on that.
pub trait Validator<C> {
    /// What the check finds for a command in a context.
    spec fn outcome(&self, context: &Context, command: &C) -> ValidationOutcome;

    fn validate(&self, context: &Context, command: &C) -> (result: ValidationResult)
        ensures
            result@ == self.outcome(context, command),
    ;
}

/// What the name check finds: an empty name is refused, and so is one of
/// more than sixty characters.
pub open spec fn name_error(name: Seq<char>) -> Option<ErrorValidation> {
    if name.len() == 0 {
        Some(ErrorValidation::EmptyName)
    } else if name.len() > MAX_NAME_CHARS {
        Some(ErrorValidation::LongName)
    } else {
        None
    }
}

/// Checks an entry name before any other check runs.
pub fn check_name(name: &str) -> (result: Result<(), ErrorValidation>)
    ensures
        match result {
            Ok(_) => name_error(name@) is None,
            Err(e) => name_error(name@) == Some(e),
        },
{
    let n: usize = name.unicode_len();
    if n == 0 {
        Err(ErrorValidation::EmptyName)
    } else if n > MAX_NAME_CHARS {
        Err(ErrorValidation::LongName)
    } else {
        Ok(())
    }
}

/// The outcome of a check that fails for `error` unless `ok` holds.
pub open spec fn pass_or(ok: bool, error: ErrorValidation) -> ValidationOutcome {
    if ok {
        ValidationOutcome::Success
    } else {
        ValidationOutcome::Failure(error.message_text())
    }
}

fn success_or(ok: bool, error: ErrorValidation) -> (result: ValidationResult)
    ensures
        result@ == pass_or(ok, error),
{
    if ok {
        ValidationResult::Success
    } else {
        ValidationResult::Failure(error.message())
    }
}

/// The master-key check: fails unless a master key has been provisioned.
pub open spec fn master_key_outcome(context: &Context) -> ValidationOutcome {
    pass_or(context.kgc@.master_key_provided, ErrorValidation::UnprovidedMasterKey)
}

/// The session check: fails unless the vault is open for this invocation.
pub open spec fn session_outcome(context: &Context) -> ValidationOutcome {
    pass_or(context.session_active, ErrorValidation::NoActiveSession)
}

/// The entry check, whose sense depends on the command: a command that adds
/// must not name an entry that exists, one that retrieves must name one
/// that does. A command without a name passes.
pub open spec fn entry_outcome(
    context: &Context,
    command_type: CommandType,
    name: Option<Seq<char>>,
) -> ValidationOutcome {
    match name {
        None => ValidationOutcome::Success,
        Some(name) => match command_type {
            CommandType::Add => pass_or(
                !holds_name(context.entries@, name),
                ErrorValidation::EntryExists,
            ),
            CommandType::Get => pass_or(
                holds_name(context.entries@, name),
                ErrorValidation::EntryNotFound,
            ),
            CommandType::Init => ValidationOutcome::Success,
        },
    }
}

/// The strength check: fails unless the secret meets the policy. A command
/// without a secret passes.
pub open spec fn password_outcome(policy: PasswordPolicy, secret: Option<Seq<char>>)
    -> ValidationOutcome {
    match secret {
        None => ValidationOutcome::Success,
        Some(secret) => pass_or(
            policy.satisfied_by(secret),
            ErrorValidation::UnrespectedPasswordProtocol,
        ),
    }
}

/// The validators that every vault starts with, one for each kind of check.
#[derive(Debug, Clone, Copy)]
pub enum StandardValidator {
    MasterKey,
    Session,
    EntryExists,
    PasswordRequirement(PasswordPolicy),
}

impl StandardValidator {
    /// The standard validator for a kind of check, under a given policy.
    pub open spec fn spec_for_kind(kind: ValidationType, policy: PasswordPolicy)
        -> StandardValidator {
        match kind {
            ValidationType::MasterKeyCheck => StandardValidator::MasterKey,
            ValidationType::SessionCheck => StandardValidator::Session,
            ValidationType::EntryExistsCheck => StandardValidator::EntryExists,
            ValidationType::PasswordRequirementCheck => StandardValidator::PasswordRequirement(
                policy,
            ),
        }
    }

    #[verifier::when_used_as_spec(spec_for_kind)]
    pub fn for_kind(kind: ValidationType, policy: PasswordPolicy) -> (validator: StandardValidator)
        ensures
            validator == Self::spec_for_kind(kind, policy),
    {
        match kind {
            ValidationType::MasterKeyCheck => StandardValidator::MasterKey,
            ValidationType::SessionCheck => StandardValidator::Session,
            ValidationType::EntryExistsCheck => StandardValidator::EntryExists,
            ValidationType::PasswordRequirementCheck => StandardValidator::PasswordRequirement(
                policy,
            ),
        }
    }
}

impl<C: CommandInfo> Validator<C> for StandardValidator {
    open spec fn outcome(&self, context: &Context, command: &C) -> ValidationOutcome {
        match self {
            StandardValidator::MasterKey => master_key_outcome(context),
            StandardValidator::Session => session_outcome(context),
            StandardValidator::EntryExists => entry_outcome(
                context,
                command.spec_command_type(),
                command.spec_entry_name(),
            ),
            StandardValidator::PasswordRequirement(policy) => password_outcome(
                *policy,
                command.spec_secret(),
            ),
        }
    }

    fn validate(&self, context: &Context, command: &C) -> (result: ValidationResult) {
        match self {
            StandardValidator::MasterKey => success_or(
                context.kgc.is_master_key_provided(),
                ErrorValidation::UnprovidedMasterKey,
            ),
            StandardValidator::Session => success_or(
                context.session_active,
                ErrorValidation::NoActiveSession,
            ),
            StandardValidator::EntryExists => match command.entry_name() {
                None => ValidationResult::Success,
                Some(name) => match command.command_type() {
                    CommandType::Add => success_or(
                        !context.has_entry(name),
                        ErrorValidation::EntryExists,
                    ),
                    CommandType::Get => success_or(
                        context.has_entry(name),
                        ErrorValidation::EntryNotFound,
                    ),
                    CommandType::Init => ValidationResult::Success,
                },
            },
            StandardValidator::PasswordRequirement(policy) => match command.secret() {
                None => ValidationResult::Success,
                Some(secret) => success_or(
                    policy.admits(secret.as_str()),
                    ErrorValidation::UnrespectedPasswordProtocol,
                ),
            },
        }
    }
}

/// A mapping from kinds of check to validators, each kind filed once.
pub struct ValidationRegistry<V> {
    pub validators: HashMap<u64, V>,
}

impl<V> ValidationRegistry<V> {
    /// Whether a validator is filed under `kind`.
    pub open spec fn registered(&self, kind: ValidationType) -> bool {
        self.validators@.contains_key(kind.spec_code())
    }

    /// The validator filed under `kind`.
    pub open spec fn validator_for(&self, kind: ValidationType) -> V
        recommends
            self.registered(kind),
    {
        self.validators@[kind.spec_code()]
    }

    /// Whether every one of `checks` has a validator.
    pub open spec fn covers(&self, checks: Seq<ValidationType>) -> bool {
        forall|i: int| 0 <= i < checks.len() ==> self.registered(#[trigger] checks[i])
    }

    /// A registry with nothing filed.
    pub fn new() -> (registry: Self)
        ensures
            forall|kind: ValidationType| !registry.registered(kind),
    {
        ValidationRegistry { validators: HashMap::new() }
    }

    /// Files `validator` under `kind`, in place of what was filed there.
    pub fn register(&mut self, kind: ValidationType, validator: V)
        ensures
            final(self).registered(kind),
            final(self).validator_for(kind) == validator,
            forall|other: ValidationType|
                other != kind ==> {
                    &&& final(self).registered(other) == old(self).registered(other)
                    &&& final(self).validator_for(other) == old(self).validator_for(other)
                },
    {
        let _ = self.validators.insert(kind.code(), validator);
    }

    /// Whether a validator is filed under `kind`.
    pub fn contains(&self, kind: ValidationType) -> (present: bool)
        ensures
            present == self.registered(kind),
    {
        let code: u64 = kind.code();
        self.validators.contains_key(&code)
    }

    /// The validator filed under `kind`, if there is one.
    pub fn get(&self, kind: ValidationType) -> (found: Option<&V>)
        ensures
            match found {
                Some(validator) => self.registered(kind) && *validator == self.validator_for(kind),
                None => !self.registered(kind),
            },
    {
        let code: u64 = kind.code();
        self.validators.get(&code)
    }

    /// What each of `checks` would find, in order.
    pub open spec fn outcomes<C>(
        &self,
        checks: Seq<ValidationType>,
        context: &Context,
        command: &C,
    ) -> Seq<ValidationOutcome> where V: Validator<C> {
        Seq::new(checks.len(), |i: int| self.validator_for(checks[i]).outcome(context, command))
    }

    /// Runs `checks` in order against a command.
    ///
    /// Every check up to and including the first that fails is run, and none
    /// after it. Asking for a kind that has no validator is a programming
    /// error, which the precondition rules out.
    pub fn run<C>(&self, checks: &Vec<ValidationType>, context: &Context, command: &C) -> (report:
        ValidationReport) where V: Validator<C>
        requires
            self.covers(checks@),
        ensures
            report@ == report_of(self.outcomes(checks@, context, command)),
    {
        let ghost outcomes = self.outcomes(checks@, context, command);
        let mut report = ValidationReport { executed: 0, warnings: Vec::new(), failure: None };
        assert(report@.warnings =~= Seq::<Seq<char>>::empty());
        let mut i: usize = 0;
        while i < checks.len()
            invariant
                i <= checks.len(),
                self.covers(checks@),
                outcomes == self.outcomes(checks@, context, command),
                report@ == report_after(outcomes, i as nat),
                report@.failure is None,
                report.executed == i,
            decreases checks.len() - i,
        {
            let kind = checks[i];
            assert(self.registered(checks@[i as int]));
            let validator = self.get(kind).unwrap();
            let ghost before = report@;
            let result = validator.validate(context, command);
            assert(result@ == outcomes[i as int]);
            report.executed = report.executed + 1;
            match result {
                ValidationResult::Success => {},
                ValidationResult::Warning(message) => {
                    report.warnings.push(message);
                    assert(report@.warnings =~= before.warnings.push(message@));
                },
                ValidationResult::Failure(message) => {
                    report.failure = Some(message);
                    proof {
                        lemma_failure_is_final(outcomes, (i + 1) as nat, outcomes.len());
                    }
                    return report;
                },
            }
            i += 1;
        }
        report
    }
}

impl ValidationRegistry<StandardValidator> {
    /// The registry that every vault starts with: each kind of check filed
    /// with its standard validator, the strength check under `policy`.
    pub fn standard(policy: PasswordPolicy) -> (registry: Self)
        ensures
            forall|kind: ValidationType|
                {
                    &&& #[trigger] registry.registered(kind)
                    &&& registry.validator_for(kind) == StandardValidator::spec_for_kind(
                        kind,
                        policy,
                    )
                },
    {
        let mut registry = Self::new();
        registry.register(ValidationType::MasterKeyCheck, StandardValidator::MasterKey);
        registry.register(ValidationType::SessionCheck, StandardValidator::Session);
        registry.register(ValidationType::EntryExistsCheck, StandardValidator::EntryExists);
        registry.register(
            ValidationType::PasswordRequirementCheck,
            StandardValidator::PasswordRequirement(policy),
        );
        registry
    }
}

/// What each of `checks` finds under the standard validators.
pub open spec fn standard_outcomes<C: CommandInfo>(
    checks: Seq<ValidationType>,
    context: &Context,
    command: &C,
) -> Seq<ValidationOutcome> {
    Seq::new(
        checks.len(),
        |i: int|
            StandardValidator::spec_for_kind(checks[i], context.password_policy).outcome(
                context,
                command,
            ),
    )
}

/// Validates a command the standard way: the name first, if the command has
/// one, and the listed checks after it.
pub open spec fn standard_report<C: CommandInfo>(
    checks: Seq<ValidationType>,
    context: &Context,
    command: &C,
) -> ReportView {
    match command.spec_entry_name() {
        Some(name) => match name_error(name) {
            Some(error) => rejected_report(error.message_text()),
            None => report_of(standard_outcomes(checks, context, command)),
        },
        None => report_of(standard_outcomes(checks, context, command)),
    }
}

/// Validates a command the standard way: the name first, and the listed
/// checks after it against the standard registry.
pub fn validate_standard<C: CommandInfo>(checks: &Vec<ValidationType>, context: &Context, command: &C)
    -> (report: ValidationReport)
    ensures
        report@ == standard_report(checks@, context, command),
{
    match command.entry_name() {
        Some(name) => match check_name(name.as_str()) {
            Err(error) => {
                let report = ValidationReport {
                    executed: 0,
                    warnings: Vec::new(),
                    failure: Some(error.message()),
                };
                assert(report@.warnings =~= Seq::<Seq<char>>::empty());
                return report;
            },
            Ok(_) => {},
        },
        None => {},
    }
    let registry = ValidationRegistry::standard(context.password_policy);
    assert forall|i: int| 0 <= i < checks@.len() implies registry.outcomes(
        checks@,
        context,
        command,
    )[i] == standard_outcomes(checks@, context, command)[i] by {
        assert(registry.registered(checks@[i]));
    }
    assert(registry.outcomes(checks@, context, command) =~= standard_outcomes(
        checks@,
        context,
        command,
    ));
    registry.run(checks, context, command)
}

/// The boundary of the name check: sixty characters pass, sixty-one are too
/// long, and none is too few.
pub proof fn lemma_name_boundary(name: Seq<char>)
    ensures
        name.len() == 0 ==> name_error(name) == Some(ErrorValidation::EmptyName),
        0 < name.len() <= 60 ==> name_error(name) is None,
        name.len() >= 61 ==> name_error(name) == Some(ErrorValidation::LongName),
{
}

/// A name that the name check refuses ends validation before any other
/// check runs: whatever checks are listed and whatever the context holds,
/// the report carries the name check's message and counts no check.
pub proof fn lemma_name_is_checked_first<C: CommandInfo>(
    checks: Seq<ValidationType>,
    context: &Context,
    command: &C,
)
    requires
        command.spec_entry_name() matches Some(name) && name_error(name) is Some,
    ensures
        standard_report(checks, context, command) == rejected_report(
            name_error(command.spec_entry_name()->Some_0)->Some_0.message_text(),
        ),
        standard_report(checks, context, command).executed == 0,
{
}

/// Once a check has failed, the report does not change any more.
pub proof fn lemma_failure_is_final(outcomes: Seq<ValidationOutcome>, k: nat, n: nat)
    requires
        k <= n,
        report_after(outcomes, k).failure is Some,
    ensures
        report_after(outcomes, n) == report_after(outcomes, k),
    decreases n,
{
    if k < n {
        lemma_failure_is_final(outcomes, k, (n - 1) as nat);
    }
}

/// As long as no check has failed, every check so far has been run, and the
/// report depends on those checks alone.
pub proof fn lemma_report_without_failure(outcomes: Seq<ValidationOutcome>, n: nat)
    requires
        n <= outcomes.len(),
        forall|i: int| 0 <= i < n ==> !(#[trigger] outcomes[i] is Failure),
    ensures
        report_after(outcomes, n).failure is None,
        report_after(outcomes, n).executed == n,
        report_after(outcomes, n) == report_after(outcomes.take(n as int), n),
    decreases n,
{
    if n > 0 {
        lemma_report_without_failure(outcomes, (n - 1) as nat);
        lemma_report_reads_prefix(outcomes, outcomes.take(n as int), (n - 1) as nat);
        lemma_report_reads_prefix(
            outcomes.take((n - 1) as int),
            outcomes.take(n as int),
            (n - 1) as nat,
        );
        assert(outcomes.take(n as int)[n - 1] == outcomes[n - 1]);
    }
}

/// The report after `n` checks reads only the first `n` outcomes.
pub proof fn lemma_report_reads_prefix(
    first: Seq<ValidationOutcome>,
    second: Seq<ValidationOutcome>,
    n: nat,
)
    requires
        n <= first.len(),
        n <= second.len(),
        forall|i: int| 0 <= i < n ==> first[i] == second[i],
    ensures
        report_after(first, n) == report_after(second, n),
    decreases n,
{
    if n > 0 {
        lemma_report_reads_prefix(first, second, (n - 1) as nat);
    }
}

/// Short circuit: when the check at place `j` is the first to fail, the run
/// ends with its message, exactly `j + 1` checks have run, and the report is
/// the same whatever checks follow, as none of them runs.
pub proof fn lemma_short_circuit(outcomes: Seq<ValidationOutcome>, j: int)
    requires
        0 <= j < outcomes.len(),
        outcomes[j] is Failure,
        forall|i: int| 0 <= i < j ==> !(#[trigger] outcomes[i] is Failure),
    ensures
        report_of(outcomes).failure == Some(outcomes[j]->Failure_0),
        report_of(outcomes).executed == j + 1,
        report_of(outcomes) == report_of(outcomes.take(j + 1)),
        forall|other: Seq<ValidationOutcome>|
            other.len() > j && other.take(j + 1) == outcomes.take(j + 1) ==> report_of(other)
                == report_of(outcomes),
{
    lemma_report_without_failure(outcomes, j as nat);
    lemma_failure_is_final(outcomes, (j + 1) as nat, outcomes.len());
    let prefix = outcomes.take(j + 1);
    lemma_report_reads_prefix(outcomes, prefix, (j + 1) as nat);
    assert forall|other: Seq<ValidationOutcome>|
        other.len() > j && other.take(j + 1) == outcomes.take(j + 1) implies report_of(other)
        == report_of(outcomes) by {
        assert forall|i: int| 0 <= i < j + 1 implies other[i] == outcomes[i] by {
            assert(other.take(j + 1)[i] == other[i]);
            assert(outcomes.take(j + 1)[i] == outcomes[i]);
        }
        lemma_report_reads_prefix(other, outcomes, (j + 1) as nat);
        lemma_failure_is_final(other, (j + 1) as nat, other.len());
    }
}

/// Warnings do not block: when no check fails, every check runs and the
/// command passes, however many warnings were raised on the way.
pub proof fn lemma_warnings_do_not_block(outcomes: Seq<ValidationOutcome>)
    requires
        forall|i: int| 0 <= i < outcomes.len() ==> !(#[trigger] outcomes[i] is Failure),
    ensures
        report_of(outcomes).failure is None,
        report_of(outcomes).executed == outcomes.len(),
{
    lemma_report_without_failure(outcomes, outcomes.len());
}

/// A warning is kept and the run goes on: if the checks before place `j`
/// do not fail and the one at `j` warns, its message is the last warning
/// after `j + 1` checks, and the checks after it decide the rest.
pub proof fn lemma_warning_is_noted(outcomes: Seq<ValidationOutcome>, j: int)
    requires
        0 <= j < outcomes.len(),
        outcomes[j] is Warning,
        forall|i: int| 0 <= i < j ==> !(#[trigger] outcomes[i] is Failure),
    ensures
        report_after(outcomes, (j + 1) as nat).failure is None,
        report_after(outcomes, (j + 1) as nat).warnings == report_after(
            outcomes,
            j as nat,
        ).warnings.push(outcomes[j]->Warning_0),
{
    lemma_report_without_failure(outcomes, j as nat);
}

} // verus!
