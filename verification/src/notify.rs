//! Notifications: which transactions are worth one, and what each one says.
//!
//! Everything up to the height pinned at import is history and stays silent. After
//! that, each transaction is notified once: it is recorded as seen only when the
//! notification was delivered, so a failed one is tried again on rediscovery. The end
//! of the Initial scan is announced once.

use vstd::prelude::*;
use vstd::string::*;

use crate::amount;
use crate::text;

verus! {

broadcast use vstd::string::group_string_axioms;

/// A desktop notification: its two lines, and where a click on it leads.
#[derive(Debug, PartialEq, Eq)]
pub struct Toast {
    pub title: String,
    pub body: String,
    pub deep_link: String,
}

/// What a [`Toast`] says.
pub struct ToastText {
    pub title: Seq<char>,
    pub body: Seq<char>,
    pub deep_link: Seq<char>,
}

impl View for Toast {
    type V = ToastText;

    open spec fn view(&self) -> ToastText {
        ToastText { title: self.title@, body: self.body@, deep_link: self.deep_link@ }
    }
}

/// The texts of an optional toast.
pub open spec fn toast_view(toast: Option<Toast>) -> Option<ToastText> {
    match toast {
        Some(toast) => Some(toast@),
        None => None,
    }
}

/// Whether a transaction is to be notified.
#[derive(Debug, Clone, Copy, PartialEq, Eq, Structural)]
pub enum Disposition {
    Notify,
    Silent,
}

/// The transactions that need no notification any more, and whether the Initial scan is
/// over.
pub struct NotificationPolicy {
    pub seen: Vec<String>,
    pub live: bool,
}

/// What a [`NotificationPolicy`] says.
pub struct Policy {
    pub seen: Set<Seq<char>>,
    pub live: bool,
}

/// The texts in a list.
pub open spec fn text_set(v: Seq<String>) -> Set<Seq<char>> {
    Set::new(|t: Seq<char>| exists|i: int| 0 <= i < v.len() && (#[trigger] v[i])@ == t)
}

impl View for NotificationPolicy {
    type V = Policy;

    open spec fn view(&self) -> Policy {
        Policy { seen: text_set(self.seen@), live: self.live }
    }
}

impl Policy {
    /// Whether a transaction is to be notified: it is new, and no history.
    pub open spec fn disposition(self, txid: Seq<char>, live: bool) -> Disposition {
        if live && !self.seen.contains(txid) {
            Disposition::Notify
        } else {
            Disposition::Silent
        }
    }

    /// The policy after it was asked about a transaction: history is recorded as seen.
    pub open spec fn classified(self, txid: Seq<char>, live: bool) -> Policy {
        if live {
            self
        } else {
            self.marked(txid)
        }
    }

    /// The policy with a transaction recorded as seen.
    pub open spec fn marked(self, txid: Seq<char>) -> Policy {
        Policy { seen: self.seen.insert(txid), ..self }
    }

    /// A policy that has seen nothing.
    pub open spec fn fresh() -> Policy {
        Policy { seen: Set::empty(), live: false }
    }

    /// The policy at the start of a round: one that starts at or past the Initial scan's
    /// end is live from the outset.
    pub open spec fn seeded(self, start: u32, target: u32) -> Policy {
        Policy { live: self.live || start >= target, ..self }
    }

    /// Whether reaching a height ends the Initial scan.
    pub open spec fn crosses(self, height: u32, target: u32) -> bool {
        !self.live && height >= target
    }

    /// The policy once a height is reached.
    pub open spec fn reached(self, height: u32, target: u32) -> Policy {
        Policy { live: self.live || height >= target, ..self }
    }
}

impl NotificationPolicy {
    /// The policy of a wallet whose transactions seen so far are given.
    pub fn load(seen: Vec<String>) -> (r: Self)
        ensures
            r@ == (Policy { seen: text_set(seen@), live: false }),
    {
        NotificationPolicy { seen, live: false }
    }

    /// Whether a transaction is recorded as seen.
    pub fn has_seen(&self, txid: &str) -> (r: bool)
        ensures
            r == self@.seen.contains(txid@),
    {
        let mut i: usize = 0;
        while i < self.seen.len()
            invariant
                i <= self.seen@.len(),
                forall|k: int| 0 <= k < i ==> (#[trigger] self.seen@[k])@ != txid@,
            decreases self.seen@.len() - i,
        {
            if text::same_text(self.seen[i].as_str(), txid) {
                assert(self.seen@[i as int]@ == txid@);
                return true;
            }
            i = i + 1;
        }
        false
    }

    /// Record a transaction as seen.
    pub fn mark_notified(&mut self, txid: &str)
        ensures
            final(self)@ == old(self)@.marked(txid@),
            final(self).live == old(self).live,
    {
        if !self.has_seen(txid) {
            let ghost before = self.seen@;
            self.seen.push(txid.to_string());
            proof {
                let after = self.seen@;
                assert(after.last()@ == txid@);
                assert forall|t: Seq<char>| text_set(after).contains(t) <==> text_set(
                    before,
                ).insert(txid@).contains(t) by {
                    if text_set(after).contains(t) {
                        let i = choose|i: int| 0 <= i < after.len() && (#[trigger] after[i])@ == t;
                        if i < before.len() {
                            assert(before[i]@ == t);
                        }
                    }
                    if text_set(before).contains(t) {
                        let i = choose|i: int|
                            0 <= i < before.len() && (#[trigger] before[i])@ == t;
                        assert(after[i]@ == t);
                    }
                }
                assert(text_set(after) =~= text_set(before).insert(txid@));
            }
        } else {
            proof {
                assert(self@.seen =~= self@.seen.insert(txid@));
            }
        }
    }

    /// Whether a transaction is to be notified. One that is history is recorded as
    /// seen, silently.
    pub fn classify(&mut self, txid: &str, live: bool) -> (r: Disposition)
        ensures
            r == old(self)@.disposition(txid@, live),
            final(self)@ == old(self)@.classified(txid@, live),
    {
        if !live {
            self.mark_notified(txid);
            return Disposition::Silent;
        }
        if self.has_seen(txid) {
            Disposition::Silent
        } else {
            Disposition::Notify
        }
    }

    /// Forget everything, for another wallet.
    pub fn reset(&mut self)
        ensures
            final(self)@ == Policy::fresh(),
    {
        self.seen.clear();
        self.live = false;
        proof {
            assert(self@.seen =~= Set::empty());
        }
    }

    /// Start a round: one that starts at or past the Initial scan's end is live.
    pub fn seed_live(&mut self, start: u32, target: u32)
        ensures
            final(self)@ == old(self)@.seeded(start, target),
    {
        if start >= target {
            self.live = true;
        }
    }

    /// Whether reaching a height ends the Initial scan. From then on the wallet is live.
    pub fn crossed_to_live(&mut self, height: u32, target: u32) -> (r: bool)
        ensures
            r == old(self)@.crosses(height, target),
            final(self)@ == old(self)@.reached(height, target),
    {
        if !self.live && height >= target {
            self.live = true;
            true
        } else {
            false
        }
    }
}

// ---------------------------------------------------------------------------
// Laws of the policy
// ---------------------------------------------------------------------------

/// A transaction is notified at most once: recorded as seen, it stays silent whatever
/// is asked and recorded afterwards.
pub proof fn a_seen_transaction_stays_silent(
    policy: Policy,
    txid: Seq<char>,
    other: Seq<char>,
    live: bool,
    other_live: bool,
)
    ensures
        policy.marked(txid).disposition(txid, live) == Disposition::Silent,
        policy.marked(txid).classified(other, other_live).disposition(txid, live)
            == Disposition::Silent,
        policy.marked(txid).marked(other).disposition(txid, live) == Disposition::Silent,
{
}

/// History never notifies, not even when the same transaction is later found live.
pub proof fn history_stays_silent(policy: Policy, txid: Seq<char>, live: bool)
    ensures
        policy.disposition(txid, false) == Disposition::Silent,
        policy.classified(txid, false).disposition(txid, live) == Disposition::Silent,
{
}

/// A notification that was not delivered is due again.
pub proof fn an_undelivered_notification_is_due_again(policy: Policy, txid: Seq<char>)
    requires
        policy.disposition(txid, true) == Disposition::Notify,
    ensures
        policy.classified(txid, true).disposition(txid, true) == Disposition::Notify,
{
}

/// The end of the Initial scan is announced at most once, however far the rounds after
/// it get.
pub proof fn the_crossing_fires_once(
    policy: Policy,
    height: u32,
    target: u32,
    start: u32,
    later_height: u32,
    later_target: u32,
)
    requires
        policy.crosses(height, target),
    ensures
        !policy.reached(height, target).crosses(later_height, later_target),
        !policy.reached(height, target).seeded(start, later_target).crosses(
            later_height,
            later_target,
        ),
{
}

/// A round that starts at or past the Initial scan's end announces nothing, and neither
/// does one that ends short of it.
pub proof fn only_the_initial_scan_is_announced(
    policy: Policy,
    start: u32,
    height: u32,
    target: u32,
)
    ensures
        start >= target ==> !policy.seeded(start, target).crosses(height, target),
        height < target ==> !policy.seeded(start, target).crosses(height, target),
{
}

// ---------------------------------------------------------------------------
// The texts
// ---------------------------------------------------------------------------

/// Where a click on a transaction's notification leads.
pub open spec fn tx_link(txid: Seq<char>) -> Seq<char> {
    "pendrake://tx?txid="@ + txid
}

/// A transaction's notification. In Discreet mode it carries neither amount nor
/// direction.
pub open spec fn movement(txid: Seq<char>, received: bool, value: u64, discreet: bool) -> ToastText {
    if discreet {
        ToastText {
            title: "New transaction detected"@,
            body: "Open Pendrake to view details."@,
            deep_link: tx_link(txid),
        }
    } else if received {
        ToastText {
            title: "Funds received"@,
            body: amount::amount_text(value as nat) + " arrived in your wallet."@,
            deep_link: tx_link(txid),
        }
    } else {
        ToastText {
            title: "Funds sent"@,
            body: amount::amount_text(value as nat) + " sent from your wallet."@,
            deep_link: tx_link(txid),
        }
    }
}

/// A transaction's notification.
pub fn movement_toast(txid: &str, received: bool, value: u64, discreet: bool) -> (r: Toast)
    ensures
        r@ == movement(txid@, received, value, discreet),
{
    let mut deep_link = "pendrake://tx?txid=".to_string();
    deep_link.append(txid);
    if discreet {
        Toast {
            title: "New transaction detected".to_string(),
            body: "Open Pendrake to view details.".to_string(),
            deep_link,
        }
    } else {
        let mut body = amount::format_amount(value);
        if received {
            body.append(" arrived in your wallet.");
            Toast { title: "Funds received".to_string(), body, deep_link }
        } else {
            body.append(" sent from your wallet.");
            Toast { title: "Funds sent".to_string(), body, deep_link }
        }
    }
}

/// A discreet notification tells a transaction's amount and direction to nobody: it is
/// the same for all of them.
pub proof fn a_discreet_toast_tells_nothing(
    txid: Seq<char>,
    received_a: bool,
    value_a: u64,
    received_b: bool,
    value_b: u64,
)
    ensures
        movement(txid, received_a, value_a, true) == movement(txid, received_b, value_b, true),
{
}

/// The notification that the Initial scan is over.
pub open spec fn scan_finished() -> ToastText {
    ToastText {
        title: "Wallet ready"@,
        body: "Pendrake finished scanning. You'll be notified of new activity."@,
        deep_link: "pendrake://wallet"@,
    }
}

/// The notification that the Initial scan is over.
pub fn scan_finished_toast() -> (r: Toast)
    ensures
        r@ == scan_finished(),
{
    Toast {
        title: "Wallet ready".to_string(),
        body: "Pendrake finished scanning. You'll be notified of new activity.".to_string(),
        deep_link: "pendrake://wallet".to_string(),
    }
}

/// The notification that the Indexer does not answer.
pub open spec fn unreachable(host: Seq<char>) -> ToastText {
    ToastText {
        title: "Can't reach your Indexer"@,
        body: "Pendrake can't reach "@ + host + ". Open to choose another server."@,
        deep_link: "pendrake://settings/indexer"@,
    }
}

/// The notification that the Indexer does not answer.
pub fn unreachable_toast(host: &str) -> (r: Toast)
    ensures
        r@ == unreachable(host@),
{
    let mut body = "Pendrake can't reach ".to_string();
    body.append(host);
    body.append(". Open to choose another server.");
    Toast {
        title: "Can't reach your Indexer".to_string(),
        body,
        deep_link: "pendrake://settings/indexer".to_string(),
    }
}

/// The notification that the Indexer serves another chain.
pub open spec fn wrong_chain() -> ToastText {
    ToastText {
        title: "Wrong chain detected"@,
        body: "Your Indexer is serving a different chain than this Wallet synced. Open to review."@,
        deep_link: "pendrake://settings/indexer"@,
    }
}

/// The notification that the Indexer serves another chain.
pub fn wrong_chain_toast() -> (r: Toast)
    ensures
        r@ == wrong_chain(),
{
    Toast {
        title: "Wrong chain detected".to_string(),
        body:
            "Your Indexer is serving a different chain than this Wallet synced. Open to review.".to_string(),
        deep_link: "pendrake://settings/indexer".to_string(),
    }
}

// ---------------------------------------------------------------------------
// What the policy is for
// ---------------------------------------------------------------------------

/// A transaction is notified exactly where it is live and not seen yet. Asking about one
/// that is live records nothing, asking about one that is not records that one and no
/// other, and so does recording it; neither ends the Initial scan.
pub proof fn only_new_live_transactions_are_notified(
    policy: Policy,
    txid: Seq<char>,
    live: bool,
    other: Seq<char>,
)
    ensures
        policy.disposition(txid, live) == Disposition::Notify <==> live && !policy.seen.contains(
            txid,
        ),
        policy.marked(txid).seen.contains(other) <==> other == txid || policy.seen.contains(other),
        policy.marked(txid).live == policy.live,
        policy.classified(txid, true) == policy,
        policy.classified(txid, false).seen.contains(other) <==> other == txid
            || policy.seen.contains(other),
        policy.classified(txid, live).live == policy.live,
        !Policy::fresh().seen.contains(other),
        !Policy::fresh().live,
{
}

/// The Initial scan is over once a round has started or ended at or past its end, and stays
/// so; reaching a height crosses that line exactly where it was not over and the height is
/// at or past the end. What was seen stays as it is.
pub proof fn the_initial_scan_ends_at_its_target(policy: Policy, height: u32, target: u32)
    ensures
        policy.seeded(height, target).live <==> policy.live || height >= target,
        policy.reached(height, target).live <==> policy.live || height >= target,
        policy.crosses(height, target) <==> !policy.live && height >= target,
        policy.seeded(height, target).seen == policy.seen,
        policy.reached(height, target).seen == policy.seen,
{
}

/// The transactions seen are those of the list, all of them and no others.
pub proof fn the_listed_transactions_are_seen(list: Seq<String>, txid: Seq<char>)
    ensures
        text_set(list).contains(txid) <==> exists|i: int|
            0 <= i < list.len() && (#[trigger] list[i])@ == txid,
{
}

/// A notification leads to its own transaction, and outside Discreet mode it says which way
/// the funds went and how much: funds that arrived are never told as sent, and amounts that
/// differ read differently.
pub proof fn a_movement_tells_its_own(
    txid: Seq<char>,
    received: bool,
    value: u64,
    discreet: bool,
    other_value: u64,
)
    ensures
        ({
            let t = movement(txid, received, value, discreet);
            &&& t.deep_link == "pendrake://tx?txid="@ + txid
            &&& !discreet && received ==> t.title == "Funds received"@ && t.body
                == amount::amount_text(value as nat) + " arrived in your wallet."@
            &&& !discreet && !received ==> t.title == "Funds sent"@ && t.body
                == amount::amount_text(value as nat) + " sent from your wallet."@
            &&& discreet ==> t.title == "New transaction detected"@ && t.body
                == "Open Pendrake to view details."@
            &&& !discreet && t.body == movement(txid, received, other_value, discreet).body
                ==> value == other_value
        }),
{
    let (a, b) = (amount::amount_text(value as nat), amount::amount_text(other_value as nat));
    let end = if received {
        " arrived in your wallet."@
    } else {
        " sent from your wallet."@
    };
    if a + end == b + end {
        assert((a + end).len() == (b + end).len());
        assert((a + end).take(a.len() as int) =~= a);
        assert((b + end).take(b.len() as int) =~= b);
        amount::amount_text_injective(value as nat, other_value as nat);
    }
}

/// The other notifications say what happened and lead to where something can be done about
/// it: a finished scan to the wallet, trouble with the Indexer to its settings, with the
/// one that cannot be reached by name.
pub proof fn alerts_lead_to_their_remedy(host: Seq<char>)
    ensures
        scan_finished().title == "Wallet ready"@,
        scan_finished().body
            == "Pendrake finished scanning. You'll be notified of new activity."@,
        scan_finished().deep_link == "pendrake://wallet"@,
        unreachable(host).title == "Can't reach your Indexer"@,
        unreachable(host).body == "Pendrake can't reach "@ + host
            + ". Open to choose another server."@,
        unreachable(host).deep_link == "pendrake://settings/indexer"@,
        wrong_chain().title == "Wrong chain detected"@,
        wrong_chain().body
            == "Your Indexer is serving a different chain than this Wallet synced. Open to review."@,
        wrong_chain().deep_link == "pendrake://settings/indexer"@,
{
}

/// A notification on the desktop has the texts that are meant for it, each in its place.
pub proof fn a_toast_shows_its_texts(toast: Toast, text: ToastText)
    requires
        toast_view(Some(toast)) == Some(text),
    ensures
        toast.title@ == text.title,
        toast.body@ == text.body,
        toast.deep_link@ == text.deep_link,
        toast_view(None) is None,
{
}

/// Asking about a transaction, recording it, starting over and reaching a height each do to
/// the record what they say: history and what was delivered is seen from then on, and
/// nothing else is.
pub proof fn the_record_is_kept_as_told(txid: &str, live: bool, height: u32, target: u32)
    ensures
        forall|m: &mut NotificationPolicy, r: Disposition, t: Seq<char>|
            #![trigger call_ensures(NotificationPolicy::classify, (m, txid, live), r), (*m)@.seen.contains(t)]
            call_ensures(NotificationPolicy::classify, (m, txid, live), r) ==> {
                &&& r is Notify <==> live && !(*m)@.seen.contains(txid@)
                &&& (*final(m))@.seen.contains(t) <==> (*m)@.seen.contains(t) || (!live && t
                    == txid@)
                &&& (*final(m)).live == (*m).live
            },
        forall|m: &mut NotificationPolicy, t: Seq<char>|
            #![trigger call_ensures(NotificationPolicy::mark_notified, (m, txid), ()), (*m)@.seen.contains(t)]
            call_ensures(NotificationPolicy::mark_notified, (m, txid), ()) ==> {
                &&& (*final(m))@.seen.contains(t) <==> (*m)@.seen.contains(t) || t == txid@
                &&& (*final(m)).live == (*m).live
            },
        forall|m: &mut NotificationPolicy, r: bool| #[trigger]
            call_ensures(NotificationPolicy::crossed_to_live, (m, height, target), r) ==> {
                &&& r <==> !(*m).live && height >= target
                &&& (*final(m)).live <==> (*m).live || height >= target
                &&& (*final(m))@.seen == (*m)@.seen
            },
        forall|m: &mut NotificationPolicy| #[trigger]
            call_ensures(NotificationPolicy::seed_live, (m, height, target), ()) ==> {
                &&& (*final(m)).live <==> (*m).live || height >= target
                &&& (*final(m))@.seen == (*m)@.seen
            },
{
}

} // verus!
