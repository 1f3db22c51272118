//! Notifications, and the record of the notifications sent to each topic that
//! keeps the notifier from sending one twice.

use vstd::prelude::*;
use vstd::std_specs::cmp::PartialEqSpecImpl;
use vstd::string::StringExecFns;

use crate::http::{is_success, is_success_status};
use crate::text::{concat3, text_eq};

verus! {

/// Priority levels for notifications.
#[derive(Debug, Hash, Clone, Copy, PartialEq, Eq, Structural)]
pub enum Priority {
    Urgent,
    High,
    Default,
}

impl Priority {
    /// The name under which the notification service knows this priority.
    pub open spec fn name(self) -> Seq<char> {
        match self {
            Priority::Urgent => "urgent"@,
            Priority::High => "high"@,
            Priority::Default => "default"@,
        }
    }

    pub fn as_str(&self) -> (r: &'static str)
        ensures
            r@ == self.name(),
    {
        match self {
            Priority::Urgent => "urgent",
            Priority::High => "high",
            Priority::Default => "default",
        }
    }
}

/// Tags for notifications.
#[derive(Debug, Hash, Clone, Copy, PartialEq, Eq, Structural)]
pub enum Tag {
    Wind,
    Warning,
}

impl Tag {
    /// The name under which the notification service knows this tag (an emoji short code).
    pub open spec fn name(self) -> Seq<char> {
        match self {
            Tag::Wind => "dash"@,
            Tag::Warning => "warning"@,
        }
    }

    pub fn as_str(&self) -> (r: &'static str)
        ensures
            r@ == self.name(),
    {
        match self {
            Tag::Wind => "dash",
            Tag::Warning => "warning",
        }
    }

    /// The tag as text, as it is displayed.
    pub fn to_string(&self) -> (r: String)
        ensures
            r@ == self.name(),
    {
        String::from_str(self.as_str())
    }
}

/// A notification to be sent.
#[derive(Debug, Hash, Eq)]
pub struct Notification {
    pub title: String,
    pub priority: Priority,
    pub tag: Tag,
    pub description: String,
}

/// What a notification says: title, priority, tag and description.
pub type NotificationView = (Seq<char>, Priority, Tag, Seq<char>);

impl View for Notification {
    type V = NotificationView;

    open spec fn view(&self) -> NotificationView {
        (self.title@, self.priority, self.tag, self.description@)
    }
}

impl Notification {
    /// Create a new notification.
    pub fn new(title: String, priority: Priority, tag: Tag, description: String) -> (r: Self)
        ensures
            r.title == title,
            r.priority == priority,
            r.tag == tag,
            r.description == description,
    {
        Self { title, priority, tag, description }
    }
}

impl Clone for Notification {
    fn clone(&self) -> (r: Self)
        ensures
            r == *self,
    {
        Notification {
            title: self.title.clone(),
            priority: self.priority,
            tag: self.tag,
            description: self.description.clone(),
        }
    }
}

impl PartialEq for Notification {
    fn eq(&self, other: &Self) -> (r: bool) {
        self.title == other.title && self.priority == other.priority && self.tag == other.tag
            && self.description == other.description
    }
}

impl PartialEqSpecImpl for Notification {
    open spec fn obeys_eq_spec() -> bool {
        true
    }

    open spec fn eq_spec(&self, other: &Notification) -> bool {
        self@ == other@
    }
}

/// Response of the notification service to a published notification.
pub struct NotificationResponse {
    pub id: String,
    pub time: u64,
    pub expires: u64,
    pub event: String,
    pub topic: String,
    pub message: String,
}

/// The notifications sent, per topic: a set of (topic, notification) pairs.
pub struct SentNotifications {
    entries: Vec<(String, Notification)>,
}

impl SentNotifications {
    /// No pair is recorded twice.
    #[verifier::type_invariant]
    spec fn no_repeats(self) -> bool {
        forall|a: int, b: int|
            0 <= a < b < self.entries.len() ==> (#[trigger] self.entries@[a].0@, self.entries@[a].1@)
                != (#[trigger] self.entries@[b].0@, self.entries@[b].1@)
    }

    /// The (topic, notification) pairs recorded.
    pub closed spec fn record(self) -> Set<(Seq<char>, NotificationView)> {
        Set::new(
            |p: (Seq<char>, NotificationView)|
                exists|k: int|
                    0 <= k < self.entries.len() && #[trigger] self.entries@[k].0@ == p.0
                        && self.entries@[k].1@ == p.1,
        )
    }

    /// An empty record.
    pub fn new() -> (r: Self)
        ensures
            r.record() == Set::<(Seq<char>, NotificationView)>::empty(),
    {
        let r = SentNotifications { entries: Vec::new() };
        assert(r.record() =~= Set::<(Seq<char>, NotificationView)>::empty());
        r
    }

    /// Whether `alert` is recorded as sent to `topic`.
    pub fn contains(&self, alert: &Notification, topic: &str) -> (r: bool)
        ensures
            r == self.record().contains((topic@, alert@)),
    {
        let mut k: usize = 0;
        while k < self.entries.len()
            invariant
                k <= self.entries.len(),
                forall|j: int|
                    0 <= j < k ==> !(#[trigger] self.entries@[j].0@ == topic@ && self.entries@[j].1@
                        == alert@),
            decreases self.entries.len() - k,
        {
            let entry = &self.entries[k];
            if text_eq(entry.0.as_str(), topic) && entry.1 == *alert {
                assert(self.entries@[k as int].0@ == topic@ && self.entries@[k as int].1@ == alert@);
                return true;
            }
            k = k + 1;
        }
        false
    }

    /// Records that `alert` was sent to `topic`.
    pub fn insert(&mut self, alert: Notification, topic: &str)
        ensures
            final(self).record() == old(self).record().insert((topic@, alert@)),
    {
        if self.contains(&alert, topic) {
            assert(self.record().insert((topic@, alert@)) =~= self.record());
            return;
        }
        proof {
            use_type_invariant(&*self);
        }
        let ghost before = self.entries@;
        let mut entries: Vec<(String, Notification)> = Vec::new();
        std::mem::swap(&mut entries, &mut self.entries);
        entries.push((String::from_str(topic), alert));
        self.entries = entries;
        proof {
            assert(self.entries@[before.len() as int].0@ == topic@);
            assert forall|p: (Seq<char>, NotificationView)|
                #![trigger self.record().contains(p)]
                self.record().contains(p) == old(self).record().insert((topic@, alert@)).contains(
                    p,
                ) by {
                if old(self).record().contains(p) {
                    let k = choose|k: int|
                        0 <= k < before.len() && #[trigger] before[k].0@ == p.0 && before[k].1@
                            == p.1;
                    assert(self.entries@[k].0@ == p.0);
                }
                if self.record().contains(p) {
                    let k = choose|k: int|
                        0 <= k < self.entries.len() && #[trigger] self.entries@[k].0@ == p.0
                            && self.entries@[k].1@ == p.1;
                    if k < before.len() {
                        assert(before[k].0@ == p.0);
                    }
                }
            }
            assert(self.record() =~= old(self).record().insert((topic@, alert@)));
        }
    }

    /// The notifications recorded as sent to `topic`, each once.
    pub fn sent_to(&self, topic: &str) -> (r: Vec<Notification>)
        ensures
            forall|k: int| 0 <= k < r.len() ==> self.record().contains((topic@, #[trigger] r@[k]@)),
            forall|n: NotificationView|
                self.record().contains((topic@, n)) ==> exists|k: int|
                    0 <= k < r.len() && #[trigger] r@[k]@ == n,
            forall|a: int, b: int| 0 <= a < b < r.len() ==> #[trigger] r@[a]@ != #[trigger] r@[b]@,
    {
        proof {
            use_type_invariant(self);
        }
        let mut r: Vec<Notification> = Vec::new();
        let ghost picked: Seq<int> = Seq::empty();
        let mut k: usize = 0;
        while k < self.entries.len()
            invariant
                k <= self.entries.len(),
                picked.len() == r.len(),
                forall|i: int|
                    0 <= i < r.len() ==> 0 <= #[trigger] picked[i] < k && self.entries@[picked[i]].0@
                        == topic@ && self.entries@[picked[i]].1@ == r@[i]@,
                forall|a: int, b: int| 0 <= a < b < r.len() ==> #[trigger] picked[a] < #[trigger] picked[b],
                forall|j: int|
                    0 <= j < k && #[trigger] self.entries@[j].0@ == topic@ ==> exists|i: int|
                        0 <= i < r.len() && picked[i] == j,
                forall|a: int, b: int|
                    0 <= a < b < self.entries.len() ==> (#[trigger] self.entries@[a].0@,
                    self.entries@[a].1@) != (#[trigger] self.entries@[b].0@, self.entries@[b].1@),
            decreases self.entries.len() - k,
        {
            let entry = &self.entries[k];
            let ghost old_picked = picked;
            let ghost old_len = r.len();
            let matched = text_eq(entry.0.as_str(), topic);
            if matched {
                let n = entry.1.clone();
                r.push(n);
                proof {
                    picked = picked.push(k as int);
                }
            }
            proof {
                assert forall|j: int|
                    0 <= j < k + 1 && #[trigger] self.entries@[j].0@ == topic@ implies exists|i: int|
                    0 <= i < r.len() && picked[i] == j by {
                    if j == k {
                        assert(picked[old_len as int] == j);
                    } else {
                        let i = choose|i: int| 0 <= i < old_len && old_picked[i] == j;
                        assert(picked[i] == j);
                    }
                }
            }
            k = k + 1;
        }
        proof {
            assert forall|i: int| 0 <= i < r.len() implies self.record().contains(
                (topic@, #[trigger] r@[i]@),
            ) by {
                assert(self.entries@[picked[i]].0@ == topic@);
            }
            assert forall|n: NotificationView| self.record().contains((topic@, n)) implies exists|
                i: int,
            |
                0 <= i < r.len() && #[trigger] r@[i]@ == n by {
                let j = choose|j: int|
                    0 <= j < self.entries.len() && #[trigger] self.entries@[j].0@ == topic@
                        && self.entries@[j].1@ == n;
                let i = choose|i: int| 0 <= i < r.len() && picked[i] == j;
                assert(r@[i]@ == n);
            }
            assert forall|a: int, b: int| 0 <= a < b < r.len() implies #[trigger] r@[a]@
                != #[trigger] r@[b]@ by {
                assert(picked[a] < picked[b]);
                assert((self.entries@[picked[a]].0@, self.entries@[picked[a]].1@) != (
                self.entries@[picked[b]].0@, self.entries@[picked[b]].1@));
            }
        }
        r
    }
}

/// Why a notification was not published.
#[derive(Debug, Clone, Copy, PartialEq, Eq, Structural)]
pub enum PublishError {
    /// The notification was already sent to the topic.
    AlreadySent,
    /// The notification service answered with a status other than success.
    Rejected(u16),
    /// The notification service's answer could not be read.
    UndecodableResponse,
}

/// The HTTP request that publishes a notification: a POST of `body` to `url`
/// with the headers Title, Priority and Tags.
pub struct PublishRequest {
    pub url: String,
    pub title: String,
    pub priority: &'static str,
    pub tags: &'static str,
    pub body: String,
}

/// Publishes notifications to an ntfy server, and remembers those it sent.
pub struct NtfyNotifier {
    sent_notifications: SentNotifications,
    client: reqwest::Client,
    ntfy_url: String,
}

impl NtfyNotifier {
    /// The (topic, notification) pairs sent so far.
    pub closed spec fn sent(self) -> Set<(Seq<char>, NotificationView)> {
        self.sent_notifications.record()
    }

    /// The HTTP client held.
    pub closed spec fn http_client(self) -> reqwest::Client {
        self.client
    }

    /// The base URL of the ntfy server.
    pub closed spec fn server_url(self) -> Seq<char> {
        self.ntfy_url@
    }

    /// Create a new NtfyNotifier, which has sent nothing yet.
    pub fn new(client: reqwest::Client, ntfy_url: String) -> (r: Self)
        ensures
            r.sent() == Set::<(Seq<char>, NotificationView)>::empty(),
            r.server_url() == ntfy_url@,
            r.http_client() == client,
    {
        Self { sent_notifications: SentNotifications::new(), client, ntfy_url }
    }

    /// Add an alert to the sent notifications for a topic.
    pub fn add_alert(&mut self, alert: Notification, topic: &str)
        ensures
            final(self).sent() == old(self).sent().insert((topic@, alert@)),
            final(self).server_url() == old(self).server_url(),
            final(self).http_client() == old(self).http_client(),
    {
        self.sent_notifications.insert(alert, topic);
    }

    /// The notifications sent to a topic, each once (in no promised order).
    pub fn notifications(&self, topic: &str) -> (r: Vec<Notification>)
        ensures
            forall|k: int| 0 <= k < r.len() ==> self.sent().contains((topic@, #[trigger] r@[k]@)),
            forall|n: NotificationView|
                self.sent().contains((topic@, n)) ==> exists|k: int|
                    0 <= k < r.len() && #[trigger] r@[k]@ == n,
            forall|a: int, b: int| 0 <= a < b < r.len() ==> #[trigger] r@[a]@ != #[trigger] r@[b]@,
    {
        self.sent_notifications.sent_to(topic)
    }

    /// Whether the alert was already sent to the topic.
    pub fn has_sent_alert(&self, alert: &Notification, topic: &str) -> (r: bool)
        ensures
            r == self.sent().contains((topic@, alert@)),
    {
        self.sent_notifications.contains(alert, topic)
    }

    /// The request that publishes `alert` to `topic`, or `AlreadySent` when it
    /// was sent there before.
    pub fn publish_request(&self, alert: &Notification, topic: &str) -> (r: Result<
        PublishRequest,
        PublishError,
    >)
        ensures
            self.sent().contains((topic@, alert@)) ==> r == Err::<PublishRequest, PublishError>(
                PublishError::AlreadySent,
            ),
            !self.sent().contains((topic@, alert@)) ==> (r matches Ok(req) && req.url@
                == self.server_url() + "/"@ + topic@ && req.title@ == alert.title@
                && req.priority@ == alert.priority.name() && req.tags@ == alert.tag.name()
                && req.body@ == alert.description@),
    {
        if self.has_sent_alert(alert, topic) {
            return Err(PublishError::AlreadySent);
        }
        Ok(PublishRequest {
            url: concat3(self.ntfy_url.as_str(), "/", topic),
            title: alert.title.clone(),
            priority: alert.priority.as_str(),
            tags: alert.tag.as_str(),
            body: alert.description.clone(),
        })
    }

    /// Takes in the notification service's answer to the request that
    /// published `alert` to `topic`: its status, and the response read from
    /// it when that succeeded. The alert is recorded as sent exactly when the
    /// status is a success and the response was read.
    pub fn complete_publish(
        &mut self,
        alert: Notification,
        topic: &str,
        status: u16,
        response: Option<NotificationResponse>,
    ) -> (r: Result<NotificationResponse, PublishError>)
        ensures
            final(self).sent() == publish_answered(old(self).sent(), topic@, alert@, status, response is Some),
            (200 <= status <= 299 && response is Some) ==> final(self).sent() == old(self).sent().insert(
                (topic@, alert@),
            ),
            !(200 <= status <= 299 && response is Some) ==> final(self).sent() == old(self).sent(),
            final(self).server_url() == old(self).server_url(),
            final(self).http_client() == old(self).http_client(),
            !is_success_status(status) ==> r == Err::<NotificationResponse, PublishError>(
                PublishError::Rejected(status),
            ),
            is_success_status(status) && response is None ==> r == Err::<
                NotificationResponse,
                PublishError,
            >(PublishError::UndecodableResponse),
            is_success_status(status) && response is Some ==> r == Ok::<
                NotificationResponse,
                PublishError,
            >(response->0),
    {
        if !is_success(status) {
            return Err(PublishError::Rejected(status));
        }
        match response {
            Some(answer) => {
                self.add_alert(alert, topic);
                Ok(answer)
            },
            None => Err(PublishError::UndecodableResponse),
        }
    }

    /// The HTTP client the notifier publishes with.
    pub fn client(&self) -> (r: &reqwest::Client)
        ensures
            *r == self.http_client(),
    {
        &self.client
    }
}

/// Once `add_alert` has recorded an alert for a topic, `has_sent_alert`
/// reports it as sent there and `publish_request` refuses to send it again.
pub proof fn law_recorded_alert_is_not_sent_again(
    before: NtfyNotifier,
    after: NtfyNotifier,
    topic: Seq<char>,
    alert: NotificationView,
)
    requires
        after.sent() == before.sent().insert((topic, alert)),
    ensures
        after.sent().contains((topic, alert)),
{
}

/// Recording the same alert for the same topic twice leaves the notifier as
/// recording it once does.
pub proof fn law_recording_twice_is_recording_once(
    first: NtfyNotifier,
    second: NtfyNotifier,
    third: NtfyNotifier,
    topic: Seq<char>,
    alert: NotificationView,
)
    requires
        second.sent() == first.sent().insert((topic, alert)),
        third.sent() == second.sent().insert((topic, alert)),
    ensures
        third.sent() == second.sent(),
{
    assert(third.sent() =~= second.sent());
}

/// Recording an alert for one topic changes nothing that is recorded for any
/// other topic, nor any other alert of the same topic.
pub proof fn law_recording_touches_only_its_pair(
    before: NtfyNotifier,
    after: NtfyNotifier,
    topic: Seq<char>,
    alert: NotificationView,
    other_topic: Seq<char>,
    other: NotificationView,
)
    requires
        after.sent() == before.sent().insert((topic, alert)),
        (other_topic, other) != (topic, alert),
    ensures
        after.sent().contains((other_topic, other)) == before.sent().contains((other_topic, other)),
{
}

/// A new notifier has sent nothing to any topic.
pub proof fn law_new_notifier_has_sent_nothing(
    notifier: NtfyNotifier,
    topic: Seq<char>,
    alert: NotificationView,
)
    requires
        notifier.sent() == Set::<(Seq<char>, NotificationView)>::empty(),
    ensures
        !notifier.sent().contains((topic, alert)),
{
}

/// What is recorded after the service answered the publication of `alert`
/// to `topic` with `status`, its response read or not.
pub open spec fn publish_answered(
    sent: Set<(Seq<char>, NotificationView)>,
    topic: Seq<char>,
    alert: NotificationView,
    status: u16,
    read: bool,
) -> Set<(Seq<char>, NotificationView)> {
    if is_success_status(status) && read {
        sent.insert((topic, alert))
    } else {
        sent
    }
}

/// The service's answer records the alert for the topic exactly when its
/// status is a 2xx success and its response was read; a refused or unreadable
/// answer records nothing, and nothing else is ever added or removed.
pub proof fn law_only_an_accepted_publish_is_recorded(
    sent: Set<(Seq<char>, NotificationView)>,
    topic: Seq<char>,
    alert: NotificationView,
    status: u16,
    read: bool,
    other: (Seq<char>, NotificationView),
)
    ensures
        publish_answered(sent, topic, alert, status, read).contains((topic, alert)) <==> (sent.contains(
            (topic, alert),
        ) || (200 <= status <= 299 && read)),
        other != (topic, alert) ==> (publish_answered(sent, topic, alert, status, read).contains(other)
            <==> sent.contains(other)),
{
}

/// One attempt to publish: the topic and alert, and how the service would
/// answer if asked (its status, and whether its response can be read).
pub struct PublishAttempt {
    pub topic: Seq<char>,
    pub alert: NotificationView,
    pub status: u16,
    pub read: bool,
}

/// Whether an attempt delivers its alert: `publish_request` lets it through
/// (the alert was not sent to the topic before) and `complete_publish`
/// accepts the answer.
pub open spec fn delivers(sent: Set<(Seq<char>, NotificationView)>, x: PublishAttempt) -> bool {
    !sent.contains((x.topic, x.alert)) && is_success_status(x.status) && x.read
}

/// What is recorded after an attempt.
pub open spec fn after_attempt(
    sent: Set<(Seq<char>, NotificationView)>,
    x: PublishAttempt,
) -> Set<(Seq<char>, NotificationView)> {
    if sent.contains((x.topic, x.alert)) {
        sent
    } else {
        publish_answered(sent, x.topic, x.alert, x.status, x.read)
    }
}

/// How many attempts of a sequence, made in turn from record `sent`,
/// deliver alert `p.1` to topic `p.0`.
pub open spec fn deliveries(
    sent: Set<(Seq<char>, NotificationView)>,
    xs: Seq<PublishAttempt>,
    p: (Seq<char>, NotificationView),
) -> nat
    decreases xs.len(),
{
    if xs.len() == 0 {
        0
    } else {
        (if delivers(sent, xs[0]) && (xs[0].topic, xs[0].alert) == p {
            1nat
        } else {
            0nat
        }) + deliveries(after_attempt(sent, xs[0]), xs.drop_first(), p)
    }
}

/// Over any sequence of publish attempts, an alert is delivered to a topic at
/// most once, and never when it was recorded as sent before the first.
pub proof fn law_alert_delivered_at_most_once(
    sent: Set<(Seq<char>, NotificationView)>,
    xs: Seq<PublishAttempt>,
    p: (Seq<char>, NotificationView),
)
    ensures
        deliveries(sent, xs, p) <= 1,
        sent.contains(p) ==> deliveries(sent, xs, p) == 0,
    decreases xs.len(),
{
    if xs.len() > 0 {
        let next = after_attempt(sent, xs[0]);
        law_alert_delivered_at_most_once(next, xs.drop_first(), p);
        if delivers(sent, xs[0]) && (xs[0].topic, xs[0].alert) == p {
            assert(next.contains(p));
        }
        if sent.contains(p) {
            assert(next.contains(p));
        }
    }
}

} // verus!
