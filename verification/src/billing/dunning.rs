//! Dunning: escalating steps for overdue invoices, up to suspending the subscription.
use vstd::prelude::*;
use crate::error::BillingError;
use crate::models::{DunningLogEntry, DunningStep, Invoice, InvoiceStatus};
use crate::text::{extend_str, int_string, int_text, string_of};
use crate::time::{days_between, whole_days};

verus! {

/// Days overdue at which each step is taken.
#[derive(Clone, Copy, Debug)]
pub struct DunningConfig {
    /// Days overdue to send a reminder.
    pub reminder_days: i64,
    /// Days overdue to send a warning.
    pub warning_days: i64,
    /// Days overdue to send a final notice.
    pub final_notice_days: i64,
    /// Days overdue to suspend.
    pub suspension_days: i64,
}

impl DunningConfig {
    /// The standard schedule: reminder after 3 days, warning after 7, final notice after
    /// 14, suspension after 30.
    pub fn standard() -> (r: DunningConfig)
        ensures
            r.reminder_days == 3 && r.warning_days == 7 && r.final_notice_days == 14
                && r.suspension_days == 30,
    {
        DunningConfig { reminder_days: 3, warning_days: 7, final_notice_days: 14, suspension_days: 30 }
    }
}

impl Default for DunningConfig {
    fn default() -> (r: DunningConfig)
        ensures
            r.reminder_days == 3 && r.warning_days == 7 && r.final_notice_days == 14
                && r.suspension_days == 30,
    {
        DunningConfig::standard()
    }
}

#[derive(Clone, Debug)]
pub struct DunningLogFilter {
    pub invoice_id: Option<String>,
}

/// Storage that dunning reads and writes.
pub trait DunningRepository: Sized {
    /// Holds of each answer the store gives to listing the dunning log that `filter`
    /// selects; a store that does not describe its answers admits every answer (so for
    /// each relation below).
    closed spec fn list_dunning_log_answer(&self, filter: DunningLogFilter, answer: Result<Vec<DunningLogEntry>, BillingError>) -> bool {
        true
    }

    /// Holds of each answer to listing the invoices overdue at `now`.
    closed spec fn list_overdue_invoices_answer(&self, now: int, answer: Result<Vec<Invoice>, BillingError>) -> bool {
        true
    }

    /// Holds of each answer when asked whether `step` was taken for the invoice.
    closed spec fn has_executed_step_answer(&self, invoice_id: Seq<char>, step: DunningStep, answer: Result<bool, BillingError>) -> bool {
        true
    }

    /// Holds of each answer to taking `step` for the invoice at `now`.
    closed spec fn execute_dunning_step_answer(&self, invoice: Invoice, step: DunningStep, now: int, days_overdue: int, answer: Result<(), BillingError>) -> bool {
        true
    }

    fn list_dunning_log(&self, filter: &DunningLogFilter) -> (r: Result<Vec<DunningLogEntry>, BillingError>)
        ensures
            self.list_dunning_log_answer(*filter, r),
    ;

    fn list_overdue_invoices(&self, now: i64) -> (r: Result<Vec<Invoice>, BillingError>)
        ensures
            self.list_overdue_invoices_answer(now as int, r),
    ;

    fn has_executed_step(&self, invoice_id: &str, step: &DunningStep) -> (r: Result<bool, BillingError>)
        ensures
            self.has_executed_step_answer(invoice_id@, *step, r),
    ;

    /// The store after taking `step` for the invoice with that answer; a store that does
    /// not describe its state keeps the same value (so for each `after_` function of the
    /// repositories).
    closed spec fn after_execute_dunning_step(&self, invoice: Invoice, step: DunningStep, now: int, days_overdue: int, answer: Result<(), BillingError>) -> Self {
        *self
    }

    fn execute_dunning_step(&mut self, invoice: &Invoice, step: DunningStep, now: i64, days_overdue: i64) -> (r: Result<
        (),
        BillingError,
    >)
        ensures
            old(self).execute_dunning_step_answer(*invoice, step, now as int, days_overdue as int, r),
            *final(self) == old(self).after_execute_dunning_step(*invoice, step, now as int, days_overdue as int, r),
    ;
}

/// The step for a number of days overdue: the furthest step whose threshold is reached.
pub open spec fn spec_step(days: int, c: DunningConfig) -> Option<DunningStep> {
    if days >= c.suspension_days {
        Some(DunningStep::Suspension)
    } else if days >= c.final_notice_days {
        Some(DunningStep::FinalNotice)
    } else if days >= c.warning_days {
        Some(DunningStep::Warning)
    } else if days >= c.reminder_days {
        Some(DunningStep::Reminder)
    } else {
        None
    }
}

pub fn determine_step(days_overdue: i64, config: &DunningConfig) -> (r: Option<DunningStep>)
    ensures
        r == spec_step(days_overdue as int, *config),
{
    if days_overdue >= config.suspension_days {
        Some(DunningStep::Suspension)
    } else if days_overdue >= config.final_notice_days {
        Some(DunningStep::FinalNotice)
    } else if days_overdue >= config.warning_days {
        Some(DunningStep::Warning)
    } else if days_overdue >= config.reminder_days {
        Some(DunningStep::Reminder)
    } else {
        None
    }
}

/// How far along the escalation a step stands (no step: 0).
pub open spec fn step_rank(s: Option<DunningStep>) -> int {
    match s {
        None => 0,
        Some(DunningStep::Reminder) => 1,
        Some(DunningStep::Warning) => 2,
        Some(DunningStep::FinalNotice) => 3,
        Some(DunningStep::Suspension) => 4,
    }
}

pub open spec fn config_ordered(c: DunningConfig) -> bool {
    c.reminder_days <= c.warning_days <= c.final_notice_days <= c.suspension_days
}

/// Dunning only escalates: with thresholds in order, an invoice that is longer overdue
/// is never at an earlier step.
pub proof fn lemma_step_escalates(c: DunningConfig, d1: int, d2: int)
    requires
        config_ordered(c),
        d1 <= d2,
    ensures
        step_rank(spec_step(d1, c)) <= step_rank(spec_step(d2, c)),
{
}

/// With thresholds in order, the step reached is exactly the one whose window the days
/// fall in.
pub proof fn lemma_step_windows(c: DunningConfig, d: int)
    requires
        config_ordered(c),
    ensures
        spec_step(d, c) == Some(DunningStep::Reminder) <==> c.reminder_days <= d < c.warning_days,
        spec_step(d, c) == Some(DunningStep::Warning) <==> c.warning_days <= d < c.final_notice_days,
        spec_step(d, c) == Some(DunningStep::FinalNotice) <==> c.final_notice_days <= d
            < c.suspension_days,
        spec_step(d, c) == Some(DunningStep::Suspension) <==> c.suspension_days <= d,
        spec_step(d, c) is None <==> d < c.reminder_days,
{
}

/// A step that a run would take on one invoice.
#[derive(Clone, Copy, Debug)]
pub struct PlannedStep {
    /// Index of the invoice in the overdue list.
    pub index: usize,
    pub step: DunningStep,
    pub days_overdue: i64,
}

/// Whether invoice `i` gets a step, and which, in a run at `now`.
pub open spec fn planned_for(inv: Invoice, now: int, c: DunningConfig) -> Option<(DunningStep, int)> {
    match inv.due_at {
        Some(d) => match spec_step(whole_days(now - d), c) {
            Some(s) => Some((s, whole_days(now - d))),
            None => None,
        },
        None => None,
    }
}

/// The steps a run at `now` considers, in the order of the overdue list: every invoice
/// with a due date whose whole days overdue reach a step. Whether a step was already
/// taken is asked of storage afterwards.
pub fn plan_dunning(invoices: &Vec<Invoice>, now: i64, config: &DunningConfig) -> (r: Vec<PlannedStep>)
    ensures
        forall|k: int| 0 <= k < r@.len() ==> {
            let p = #[trigger] r@[k];
            &&& p.index < invoices@.len()
            &&& planned_for(invoices@[p.index as int], now as int, *config) == Some(
                (p.step, p.days_overdue as int),
            )
        },
        forall|k1: int, k2: int| 0 <= k1 < k2 < r@.len() ==> r@[k1].index < r@[k2].index,
        forall|i: int| 0 <= i < invoices@.len() && (#[trigger] planned_for(invoices@[i], now as int, *config)) is Some
            ==> exists|k: int| 0 <= k < r@.len() && r@[k].index == i,
        r@.len() <= invoices@.len(),
{
    let mut plan: Vec<PlannedStep> = Vec::new();
    let mut i: usize = 0;
    while i < invoices.len()
        invariant
            i <= invoices.len(),
            plan@.len() <= i,
            forall|k: int| 0 <= k < plan@.len() ==> {
                let p = #[trigger] plan@[k];
                &&& p.index < i
                &&& planned_for(invoices@[p.index as int], now as int, *config) == Some(
                    (p.step, p.days_overdue as int),
                )
            },
            forall|k1: int, k2: int| 0 <= k1 < k2 < plan@.len() ==> plan@[k1].index < plan@[k2].index,
            forall|j: int| 0 <= j < i && (#[trigger] planned_for(invoices@[j], now as int, *config)) is Some
                ==> exists|k: int| 0 <= k < plan@.len() && plan@[k].index == j,
        decreases invoices.len() - i,
    {
        let inv = &invoices[i];
        if let Some(due) = inv.due_at {
            let days = days_between(due, now);
            if let Some(step) = determine_step(days, config) {
                let ghost before = plan@;
                plan.push(PlannedStep { index: i, step, days_overdue: days });
                proof {
                    assert(plan@[before.len() as int].index == i);
                    assert forall|j: int| 0 <= j < i + 1 && (#[trigger] planned_for(invoices@[j], now as int, *config)) is Some
                        implies exists|k: int| 0 <= k < plan@.len() && plan@[k].index == j by {
                        if j < i {
                            let k = choose|k: int| 0 <= k < before.len() && before[k].index == j;
                            assert(plan@[k] == before[k]);
                        } else {
                            assert(plan@[before.len() as int].index == j);
                        }
                    }
                }
            }
        }
        i = i + 1;
    }
    plan
}

/// What executing a step stores.
#[derive(Clone, Debug)]
pub struct DunningActions {
    /// An issued invoice becomes overdue.
    pub mark_overdue: bool,
    pub invoice_id: String,
    pub subscription_id: Option<String>,
    pub step: DunningStep,
    pub scheduled_at: i64,
    pub executed_at: i64,
    pub notes: String,
    /// The subscription paused by a suspension, if the invoice has one.
    pub pause_subscription: Option<String>,
}

/// The note logged with an automatic step.
pub open spec fn dunning_note(days: int) -> Seq<char> {
    "Auto-dunning: "@ + int_text(days) + " days overdue"@
}

/// Executing a step: an issued invoice is marked overdue, the step is logged as
/// scheduled and executed now with the days overdue in its note, and a suspension pauses
/// the invoice's subscription.
pub fn dunning_actions(invoice: &Invoice, step: DunningStep, now: i64, days_overdue: i64) -> (r:
    DunningActions)
    ensures
        r.mark_overdue == (invoice.status == InvoiceStatus::Issued),
        r.invoice_id == invoice.id,
        r.subscription_id == invoice.subscription_id,
        r.step == step,
        r.scheduled_at == now && r.executed_at == now,
        r.notes@ == dunning_note(days_overdue as int),
        r.pause_subscription == (if step == DunningStep::Suspension {
            invoice.subscription_id
        } else {
            None
        }),
{
    let mut note: Vec<char> = Vec::new();
    extend_str(&mut note, "Auto-dunning: ");
    let d = int_string(days_overdue);
    extend_str(&mut note, d.as_str());
    extend_str(&mut note, " days overdue");
    DunningActions {
        mark_overdue: invoice.status == InvoiceStatus::Issued,
        invoice_id: invoice.id.clone(),
        subscription_id: invoice.subscription_id.clone(),
        step,
        scheduled_at: now,
        executed_at: now,
        notes: string_of(&note),
        pause_subscription: if step == DunningStep::Suspension {
            invoice.subscription_id.clone()
        } else {
            None
        },
    }
}

pub fn list_dunning_log<R: DunningRepository>(repo: &R, filter: DunningLogFilter) -> (r: Result<
    Vec<DunningLogEntry>,
    BillingError,
>)
    ensures
        repo.list_dunning_log_answer(filter, r),
{
    repo.list_dunning_log(&filter)
}

/// The step itself and every later step of the cascade.
pub open spec fn steps_from(step: DunningStep) -> Seq<DunningStep> {
    match step {
        DunningStep::Reminder => seq![
            DunningStep::Reminder,
            DunningStep::Warning,
            DunningStep::FinalNotice,
            DunningStep::Suspension,
        ],
        DunningStep::Warning => seq![DunningStep::Warning, DunningStep::FinalNotice, DunningStep::Suspension],
        DunningStep::FinalNotice => seq![DunningStep::FinalNotice, DunningStep::Suspension],
        DunningStep::Suspension => seq![DunningStep::Suspension],
    }
}

fn steps_at_or_above(step: DunningStep) -> (r: Vec<DunningStep>)
    ensures
        r@ == steps_from(step),
{
    let mut v: Vec<DunningStep> = Vec::new();
    match step {
        DunningStep::Reminder => {
            v.push(DunningStep::Reminder);
            v.push(DunningStep::Warning);
            v.push(DunningStep::FinalNotice);
            v.push(DunningStep::Suspension);
        },
        DunningStep::Warning => {
            v.push(DunningStep::Warning);
            v.push(DunningStep::FinalNotice);
            v.push(DunningStep::Suspension);
        },
        DunningStep::FinalNotice => {
            v.push(DunningStep::FinalNotice);
            v.push(DunningStep::Suspension);
        },
        DunningStep::Suspension => {
            v.push(DunningStep::Suspension);
        },
    }
    proof {
        assert(v@ =~= steps_from(step));
    }
    v
}

/// The store's answers, `answers[j]`, on whether step `steps_from(step)[j]` was taken for
/// the invoice `id`.
pub open spec fn step_answers<R: DunningRepository>(repo: R, id: Seq<char>, step: DunningStep, answers: Seq<bool>) -> bool {
    &&& answers.len() == steps_from(step).len()
    &&& forall|j: int| #![trigger answers[j]]
        0 <= j < answers.len() ==> repo.has_executed_step_answer(id, steps_from(step)[j], Ok(answers[j]))
}

/// Whether some answer says a step was taken.
pub open spec fn any_taken(answers: Seq<bool>) -> bool {
    exists|j: int| 0 <= j < answers.len() && #[trigger] answers[j]
}

/// Whether `step` or a later step was already taken for the invoice `id`, as the store
/// answers for each of them.
fn taken_at_or_above<R: DunningRepository>(repo: &R, id: &str, step: DunningStep) -> (r: Result<bool, BillingError>)
    ensures
        r matches Ok(b) ==> exists|answers: Seq<bool>|
            #[trigger] step_answers(*repo, id@, step, answers) && b == any_taken(answers),
        r matches Err(e) ==> exists|s: DunningStep| #[trigger] repo.has_executed_step_answer(id@, s, Err(e)),
{
    let steps = steps_at_or_above(step);
    let ghost mut answers: Seq<bool> = Seq::empty();
    let mut found = false;
    let mut j: usize = 0;
    while j < steps.len()
        invariant
            j <= steps.len(),
            steps@ == steps_from(step),
            answers.len() == j,
            forall|q: int| #![trigger answers[q]]
                0 <= q < j ==> repo.has_executed_step_answer(id@, steps_from(step)[q], Ok(answers[q])),
            found == any_taken(answers),
        decreases steps.len() - j,
    {
        let a = repo.has_executed_step(id, &steps[j]);
        let taken = match a {
            Ok(t) => t,
            Err(e) => {
                proof {
                    assert(repo.has_executed_step_answer(id@, steps@[j as int], Err(e)));
                }
                return Err(e);
            },
        };
        let ghost before = answers;
        proof {
            answers = answers.push(taken);
            assert forall|q: int| #![trigger answers[q]]
                0 <= q < j + 1 implies repo.has_executed_step_answer(id@, steps_from(step)[q], Ok(answers[q])) by {
                if q < j {
                    assert(answers[q] == before[q]);
                }
            }
            if taken {
                assert(answers[j as int]);
            } else if any_taken(answers) {
                let w = choose|w: int| 0 <= w < answers.len() && #[trigger] answers[w];
                assert(before[w]);
            }
            if found {
                let w = choose|w: int| 0 <= w < before.len() && #[trigger] before[w];
                assert(answers[w]);
            }
        }
        found = found || taken;
        j = j + 1;
    }
    proof {
        assert(step_answers(*repo, id@, step, answers));
    }
    Ok(found)
}

/// What a run did with an invoice whose planned step is `step`, from the store `s` to the
/// store `next`: it asked about `step` and every later step, and unless one of them was
/// taken (`skipped`, when the store is left as it was), it took `step` once, successfully.
pub open spec fn step_dealt_with<R: DunningRepository>(s: R, inv: Invoice, step: DunningStep, now: int, days: int, skipped: bool, next: R) -> bool {
    &&& exists|answers: Seq<bool>| #[trigger] step_answers(s, inv.id@, step, answers) && skipped == any_taken(answers)
    &&& skipped ==> next == s
    &&& !skipped ==> s.execute_dunning_step_answer(inv, step, now, days, Ok(())) && next
        == s.after_execute_dunning_step(inv, step, now, days, Ok(()))
}

/// How many of the first `k` invoices had a planned step that was taken by the run.
pub open spec fn steps_taken(invoices: Seq<Invoice>, now: int, c: DunningConfig, skipped: Seq<bool>, k: int) -> int
    decreases k,
{
    if k <= 0 {
        0
    } else {
        steps_taken(invoices, now, c, skipped, k - 1) + if planned_for(invoices[k - 1], now, c) is Some
            && !skipped[k - 1] {
            1int
        } else {
            0int
        }
    }
}

/// What a run over the first `k` overdue invoices did, `states[i]` being the store before
/// invoice `i` and `skipped[i]` saying whether its planned step was skipped because it
/// or a later step was already taken; an invoice without a planned step leaves the store
/// as it was.
pub open spec fn dunning_run<R: DunningRepository>(invoices: Seq<Invoice>, now: int, c: DunningConfig, skipped: Seq<bool>, states: Seq<R>, k: int) -> bool {
    &&& skipped.len() == invoices.len()
    &&& states.len() == k + 1
    &&& forall|i: int| #![trigger invoices[i]]
        0 <= i < k ==> if planned_for(invoices[i], now, c) is Some {
            step_dealt_with(
                states[i],
                invoices[i],
                planned_for(invoices[i], now, c).unwrap().0,
                now,
                planned_for(invoices[i], now, c).unwrap().1,
                skipped[i],
                states[i + 1],
            )
        } else {
            states[i + 1] == states[i]
        }
}

/// How a run stopped at an invoice with a planned step, from the store `s` to the store
/// `fin`: asking whether a step was taken failed with `e`, with nothing written; or no
/// step at or above the planned one was taken and taking it failed with `e`.
pub open spec fn dunning_failed<R: DunningRepository>(s: R, inv: Invoice, now: int, c: DunningConfig, e: BillingError, fin: R) -> bool {
    planned_for(inv, now, c) matches Some(p) && {
        ||| (exists|st: DunningStep| #[trigger] s.has_executed_step_answer(inv.id@, st, Err(e))) && fin == s
        ||| (exists|answers: Seq<bool>| #[trigger] step_answers(s, inv.id@, p.0, answers) && !any_taken(answers))
            && s.execute_dunning_step_answer(inv, p.0, now, p.1, Err(e)) && fin
            == s.after_execute_dunning_step(inv, p.0, now, p.1, Err(e))
    }
}

/// The step and days overdue that a run at `now` plans for an invoice.
fn planned_step(inv: &Invoice, now: i64, config: &DunningConfig) -> (r: Option<(DunningStep, i64)>)
    ensures
        r is Some <==> planned_for(*inv, now as int, *config) is Some,
        r matches Some(p) ==> planned_for(*inv, now as int, *config) == Some((p.0, p.1 as int)),
{
    match inv.due_at {
        Some(due) => {
            let days = days_between(due, now);
            match determine_step(days, config) {
                Some(step) => Some((step, days)),
                None => None,
            }
        },
        None => None,
    }
}

/// One dunning run at `now` over the invoices the store lists as overdue: for each with a
/// planned step, the step is skipped when it or a later step was already taken, and taken
/// otherwise; the result is the number of steps taken.
pub fn run_dunning<R: DunningRepository>(repo: &mut R, config: &DunningConfig, now: i64) -> (r: Result<
    u64,
    BillingError,
>)
    ensures
        r matches Ok(n) ==> exists|invoices: Vec<Invoice>, skipped: Seq<bool>, states: Seq<R>| {
            &&& #[trigger] old(repo).list_overdue_invoices_answer(now as int, Ok(invoices))
            &&& #[trigger] dunning_run(invoices@, now as int, *config, skipped, states, invoices@.len() as int)
            &&& states[0] == *old(repo)
            &&& states[invoices@.len() as int] == *final(repo)
            &&& n == steps_taken(invoices@, now as int, *config, skipped, invoices@.len() as int)
        },
        r matches Err(e) ==> {
            ||| old(repo).list_overdue_invoices_answer(now as int, Err(e)) && *final(repo) == *old(repo)
            ||| exists|invoices: Vec<Invoice>, skipped: Seq<bool>, states: Seq<R>, k: int| {
                &&& #[trigger] old(repo).list_overdue_invoices_answer(now as int, Ok(invoices))
                &&& #[trigger] dunning_run(invoices@, now as int, *config, skipped, states, k)
                &&& 0 <= k < invoices@.len()
                &&& states[0] == *old(repo)
                &&& dunning_failed(states[k], invoices@[k], now as int, *config, e, *final(repo))
            }
        },
{
    let invoices = repo.list_overdue_invoices(now)?;
    let ghost mut skipped: Seq<bool> = Seq::new(invoices@.len(), |i: int| true);
    let ghost mut states: Seq<R> = seq![*repo];
    let mut processed: u64 = 0;
    let mut i: usize = 0;
    while i < invoices.len()
        invariant
            i <= invoices.len(),
            processed <= i,
            processed == steps_taken(invoices@, now as int, *config, skipped, i as int),
            dunning_run(invoices@, now as int, *config, skipped, states, i as int),
            states[0] == *old(repo),
            states[i as int] == *repo,
            old(repo).list_overdue_invoices_answer(now as int, Ok(invoices)),
        decreases invoices.len() - i,
    {
        let invoice = &invoices[i];
        let ghost before = skipped;
        let ghost before_states = states;
        let ghost s0 = *repo;
        if let Some((step, days)) = planned_step(invoice, now, config) {
            let taken = match taken_at_or_above(repo, invoice.id.as_str(), step) {
                Ok(t) => t,
                Err(e) => {
                    proof {
                        assert(dunning_failed(s0, invoices@[i as int], now as int, *config, e, *repo));
                        assert(dunning_run(invoices@, now as int, *config, skipped, states, i as int));
                    }
                    return Err(e);
                },
            };
            if !taken {
                let executed = repo.execute_dunning_step(invoice, step, now, days);
                let ghost ex = executed;
                if let Err(e) = executed {
                    proof {
                        assert(s0.execute_dunning_step_answer(*invoice, step, now as int, days as int, ex));
                        assert(dunning_failed(s0, invoices@[i as int], now as int, *config, e, *repo));
                        assert(dunning_run(invoices@, now as int, *config, skipped, states, i as int));
                    }
                    return Err(e);
                }
                proof {
                    assert(ex is Ok);
                    let u: () = ex->Ok_0;
                    assert(u == ());
                    assert(ex == Ok::<(), BillingError>(()));
                }
                processed = processed + 1;
            }
            proof {
                skipped = skipped.update(i as int, taken);
                let answers = choose|answers: Seq<bool>|
                    #[trigger] step_answers(s0, invoice.id@, step, answers) && taken == any_taken(answers);
                assert(step_dealt_with(s0, invoices@[i as int], step, now as int, days as int, taken, *repo));
            }
        }
        proof {
            states = states.push(*repo);
            assert forall|j: int| #![trigger invoices@[j]]
                0 <= j < i + 1 implies if planned_for(invoices@[j], now as int, *config) is Some {
                step_dealt_with(
                    states[j],
                    invoices@[j],
                    planned_for(invoices@[j], now as int, *config).unwrap().0,
                    now as int,
                    planned_for(invoices@[j], now as int, *config).unwrap().1,
                    skipped[j],
                    states[j + 1],
                )
            } else {
                states[j + 1] == states[j]
            } by {
                if j < i {
                    assert(skipped[j] == before[j]);
                    assert(states[j] == before_states[j]);
                    assert(states[j + 1] == before_states[j + 1]);
                }
            }
            lemma_steps_taken_frame(invoices@, now as int, *config, before, skipped, i as int);
        }
        i = i + 1;
    }
    Ok(processed)
}

proof fn lemma_steps_taken_frame(invoices: Seq<Invoice>, now: int, c: DunningConfig, a: Seq<bool>, b: Seq<bool>, k: int)
    requires
        0 <= k,
        forall|j: int| 0 <= j < k ==> a[j] == b[j],
    ensures
        steps_taken(invoices, now, c, a, k) == steps_taken(invoices, now, c, b, k),
    decreases k,
{
    if k > 0 {
        lemma_steps_taken_frame(invoices, now, c, a, b, k - 1);
    }
}

} // verus!
