//! The alert policy: whether a cycle raises an alert, and the calls, texts,
//! warnings and pause that raising it takes.
use vstd::prelude::*;
use crate::decimal::{decimal, decimal_string};

verus! {

/// The notification channels and the identity they send with.
pub struct AlertConfig {
    pub enable_call: bool,
    pub enable_text: bool,
    pub provider_id: Option<String>,
    pub provider_secret: Option<String>,
    pub to_number: Option<String>,
    pub from_number: Option<String>,
}

/// One step of raising an alert, carried out by the caller in order.
pub enum AlertAction {
    /// Start a voice call whose callback is `callback`.
    Call { from: String, to: String, callback: String },
    /// Send a text message with body `body`.
    Text { from: String, to: String, body: String },
    /// Log a warning under the tag `ctx`.
    Warn { ctx: String, msg: String },
    /// Pause for `secs` seconds.
    Pause { secs: u64 },
}

/// An `AlertAction` with its strings seen as character sequences.
pub enum ActionView {
    Call { from: Seq<char>, to: Seq<char>, callback: Seq<char> },
    Text { from: Seq<char>, to: Seq<char>, body: Seq<char> },
    Warn { ctx: Seq<char>, msg: Seq<char> },
    Pause { secs: u64 },
}

impl View for AlertAction {
    type V = ActionView;

    open spec fn view(&self) -> ActionView {
        match self {
            AlertAction::Call { from, to, callback } => ActionView::Call {
                from: from@,
                to: to@,
                callback: callback@,
            },
            AlertAction::Text { from, to, body } => ActionView::Text { from: from@, to: to@, body: body@ },
            AlertAction::Warn { ctx, msg } => ActionView::Warn { ctx: ctx@, msg: msg@ },
            AlertAction::Pause { secs } => ActionView::Pause { secs: *secs },
        }
    }
}

/// Whether a cycle raised an alert, and the steps that raising it takes.
pub struct AlertPlan {
    pub raised: bool,
    pub actions: Vec<AlertAction>,
}

/// The tag under which the notification channels log their warnings.
pub open spec fn notify_tag() -> Seq<char> {
    "twilio"@
}

/// What one channel does when an alert is raised: nothing when it is
/// disabled, a warning when part of its identity is missing, and otherwise
/// a call (`voice`) or a text carrying `payload`.
pub open spec fn channel_action(cfg: AlertConfig, voice: bool, payload: Seq<char>) -> Option<ActionView> {
    let enabled = if voice { cfg.enable_call } else { cfg.enable_text };
    if !enabled {
        None
    } else if cfg.from_number is None {
        Some(ActionView::Warn { ctx: notify_tag(), msg: "No 'from phone' number provided."@ })
    } else if cfg.to_number is None {
        Some(ActionView::Warn { ctx: notify_tag(), msg: "No 'to phone' number provided."@ })
    } else if cfg.provider_id is None || cfg.provider_secret is None {
        Some(ActionView::Warn { ctx: notify_tag(), msg: "No twilio id/auth provided."@ })
    } else if voice {
        Some(
            ActionView::Call {
                from: cfg.from_number->Some_0@,
                to: cfg.to_number->Some_0@,
                callback: payload,
            },
        )
    } else {
        Some(
            ActionView::Text {
                from: cfg.from_number->Some_0@,
                to: cfg.to_number->Some_0@,
                body: payload,
            },
        )
    }
}

/// The empty sequence or the one action held.
pub open spec fn opt_seq(a: Option<ActionView>) -> Seq<ActionView> {
    match a {
        Some(v) => seq![v],
        None => Seq::empty(),
    }
}

/// The warning that states the mismatch: `expected E found O`.
pub open spec fn mismatch_message(expected: nat, observed: nat) -> Seq<char> {
    "expected "@ + decimal(expected) + " found "@ + decimal(observed)
}

/// The steps of the alert for target `name`: none when the counts agree;
/// otherwise the call, the text, two warnings (the mismatch, then the
/// context) and a pause of `delay` seconds.
pub open spec fn alert_actions(
    cfg: AlertConfig,
    name: Seq<char>,
    observed: nat,
    expected: nat,
    context: Seq<char>,
    delay: u64,
) -> Seq<ActionView> {
    if observed == expected {
        Seq::empty()
    } else {
        opt_seq(channel_action(cfg, true, context)) + opt_seq(channel_action(cfg, false, context)) + seq![
            ActionView::Warn { ctx: name, msg: mismatch_message(expected, observed) },
            ActionView::Warn { ctx: name, msg: context },
            ActionView::Pause { secs: delay },
        ]
    }
}

/// The views of a list of actions.
pub open spec fn action_views(v: Seq<AlertAction>) -> Seq<ActionView> {
    v.map_values(|a: AlertAction| a@)
}

fn notify_warning(msg: &str) -> (r: AlertAction)
    ensures
        r@ == (ActionView::Warn { ctx: notify_tag(), msg: msg@ }),
{
    AlertAction::Warn { ctx: String::from_str("twilio"), msg: String::from_str(msg) }
}

/// The step that one channel takes when an alert is raised.
fn plan_channel(cfg: &AlertConfig, voice: bool, payload: &str) -> (r: Option<AlertAction>)
    ensures
        r is Some <==> channel_action(*cfg, voice, payload@) is Some,
        r is Some ==> r->Some_0@ == channel_action(*cfg, voice, payload@)->Some_0,
{
    let enabled = if voice { cfg.enable_call } else { cfg.enable_text };
    if !enabled {
        return None;
    }
    let from = match &cfg.from_number {
        Some(f) => f,
        None => return Some(notify_warning("No 'from phone' number provided.")),
    };
    let to = match &cfg.to_number {
        Some(t) => t,
        None => return Some(notify_warning("No 'to phone' number provided.")),
    };
    if cfg.provider_id.is_none() || cfg.provider_secret.is_none() {
        return Some(notify_warning("No twilio id/auth provided."));
    }
    if voice {
        Some(AlertAction::Call { from: from.clone(), to: to.clone(), callback: String::from_str(payload) })
    } else {
        Some(AlertAction::Text { from: from.clone(), to: to.clone(), body: String::from_str(payload) })
    }
}

/// The warning that states the mismatch.
pub fn mismatch_text(expected: usize, observed: usize) -> (r: String)
    ensures
        r@ == mismatch_message(expected as nat, observed as nat),
{
    let mut s = String::from_str("expected ");
    s.append(decimal_string(expected as u64).as_str());
    s.append(" found ");
    s.append(decimal_string(observed as u64).as_str());
    s
}

/// Decides whether target `name` raises an alert, and plans the steps:
/// an alert is raised exactly when `observed` differs from `expected`.
pub fn check_and_alert(
    cfg: &AlertConfig,
    name: &str,
    observed: usize,
    expected: usize,
    context: &str,
    alert_delay: u64,
) -> (r: AlertPlan)
    ensures
        r.raised == (observed != expected),
        action_views(r.actions@) == alert_actions(
            *cfg,
            name@,
            observed as nat,
            expected as nat,
            context@,
            alert_delay,
        ),
{
    let mut actions: Vec<AlertAction> = Vec::new();
    if observed == expected {
        assert(action_views(actions@) =~= Seq::<ActionView>::empty());
        return AlertPlan { raised: false, actions };
    }
    let call = plan_channel(cfg, true, context);
    match call {
        Some(a) => actions.push(a),
        None => {},
    }
    let text = plan_channel(cfg, false, context);
    match text {
        Some(a) => actions.push(a),
        None => {},
    }
    let ghost channels = opt_seq(channel_action(*cfg, true, context@)) + opt_seq(
        channel_action(*cfg, false, context@),
    );
    assert(action_views(actions@) =~= channels);
    actions.push(AlertAction::Warn { ctx: String::from_str(name), msg: mismatch_text(expected, observed) });
    actions.push(AlertAction::Warn { ctx: String::from_str(name), msg: String::from_str(context) });
    actions.push(AlertAction::Pause { secs: alert_delay });
    assert(action_views(actions@) =~= alert_actions(
        *cfg,
        name@,
        observed as nat,
        expected as nat,
        context@,
        alert_delay,
    ));
    AlertPlan { raised: true, actions }
}

/// The alert fires exactly when the counts differ; when it fires it places
/// at most one call and at most one text, and ends with the one pause of
/// `delay` seconds.
pub proof fn lemma_alert_policy(
    cfg: AlertConfig,
    name: Seq<char>,
    observed: nat,
    expected: nat,
    context: Seq<char>,
    delay: u64,
)
    ensures
        ({
            let acts = alert_actions(cfg, name, observed, expected, context, delay);
            &&& acts.len() > 0 <==> observed != expected
            &&& forall|i: int, j: int|
                0 <= i < j < acts.len() && (#[trigger] acts[i]) is Call ==> !((#[trigger] acts[j]) is Call)
            &&& forall|i: int, j: int|
                0 <= i < j < acts.len() && (#[trigger] acts[i]) is Text ==> !((#[trigger] acts[j]) is Text)
            &&& observed != expected ==> acts.last() == (ActionView::Pause { secs: delay })
            &&& forall|i: int| 0 <= i < acts.len() - 1 ==> !((#[trigger] acts[i]) is Pause)
        }),
{
    let acts = alert_actions(cfg, name, observed, expected, context, delay);
    if observed != expected {
        let c = opt_seq(channel_action(cfg, true, context));
        let t = opt_seq(channel_action(cfg, false, context));
        let tail = seq![
            ActionView::Warn { ctx: name, msg: mismatch_message(expected, observed) },
            ActionView::Warn { ctx: name, msg: context },
            ActionView::Pause { secs: delay },
        ];
        assert(acts == c + t + tail);
        assert(forall|k: int| 0 <= k < c.len() ==> !(#[trigger] c[k] is Text) && !(c[k] is Pause));
        assert(forall|k: int| 0 <= k < t.len() ==> !(#[trigger] t[k] is Call) && !(t[k] is Pause));
        assert forall|i: int| 0 <= i < acts.len() implies (#[trigger] acts[i]) is Call ==> i < c.len() by {
            if i >= c.len() && i < c.len() + t.len() {
                assert(acts[i] == t[i - c.len()]);
            }
        }
        assert forall|i: int| 0 <= i < acts.len() implies (#[trigger] acts[i]) is Text ==> c.len() <= i < c.len() + t.len() by {
            if i < c.len() {
                assert(acts[i] == c[i]);
            }
        }
        assert forall|i: int| 0 <= i < acts.len() - 1 implies !((#[trigger] acts[i]) is Pause) by {
            if i < c.len() {
                assert(acts[i] == c[i]);
            } else if i < c.len() + t.len() {
                assert(acts[i] == t[i - c.len()]);
            }
        }
    }
}

} // verus!
