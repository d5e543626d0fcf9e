use vstd::prelude::*;

use crate::remote::wire::Pid;

verus! {

/// What kind of message went to a dead letter, as far as the dead-letter
/// handling cares.
#[derive(Debug)]
pub enum DeadLetterPayload {
    /// A request by `watcher` to watch the missing process.
    Watch { watcher: Pid },
    /// Any other message.
    Other,
}

/// A message that reached no process: the process it was for, its type
/// name, what it was, and who sent it.
#[derive(Debug)]
pub struct DeadLetterEvent {
    pub pid: Option<Pid>,
    pub message_type: String,
    pub payload: DeadLetterPayload,
    pub sender: Option<Pid>,
}

/// A metrics label as plain text.
pub open spec fn label_view(label: (String, String)) -> (Seq<char>, Seq<char>) {
    (label.0@, label.1@)
}

/// The views of a list of labels.
pub open spec fn labels_view(labels: Seq<(String, String)>) -> Seq<(Seq<char>, Seq<char>)> {
    labels.map_values(|l: (String, String)| label_view(l))
}

/// The label `key` with the id of `pid`, if there is a pid.
pub open spec fn pid_label(key: Seq<char>, pid: Option<Pid>) -> Seq<(Seq<char>, Seq<char>)> {
    match pid {
        Some(p) => seq![(key, p.id@)],
        None => Seq::empty(),
    }
}

/// The labels of a dead letter seen by the event-stream listener.
pub open spec fn notify_labels(event: DeadLetterEvent) -> Seq<(Seq<char>, Seq<char>)> {
    seq![
        ("deadletter.phase"@, "event_stream_notify"@),
        ("deadletter.event"@, "dead_letter"@),
        ("deadletter.message_type"@, event.message_type@),
    ] + pid_label("deadletter.target_pid"@, event.pid) + pid_label(
        "deadletter.sender_pid"@,
        event.sender,
    )
}

/// The labels of the termination sent to a watcher of a missing process.
pub open spec fn watch_labels(event: DeadLetterEvent, watcher: Pid) -> Seq<(Seq<char>, Seq<char>)> {
    seq![
        ("deadletter.phase"@, "event_stream_watch"@),
        ("deadletter.event"@, "watch_termination"@),
        ("deadletter.message_type"@, event.message_type@),
        ("deadletter.watcher_pid"@, watcher.id@),
    ] + pid_label("deadletter.target_pid"@, event.pid)
}

/// The labels of a message handed to the dead-letter process.
pub open spec fn publish_labels(pid: Option<Pid>, message_type: Seq<char>) -> Seq<
    (Seq<char>, Seq<char>),
> {
    seq![("deadletter.phase"@, "publish"@), ("deadletter.message_type"@, message_type)]
        + pid_label("deadletter.target_pid"@, pid)
}

/// What the event-stream listener does with a dead letter: answer the
/// sender, if any, with a dead-letter response; then, unless developer
/// supervision logging is on and there is a sender, count it under `labels`.
#[derive(Debug)]
pub struct DeadLetterNotifyPlan {
    pub respond_to: Option<Pid>,
    pub record_metrics: bool,
    pub labels: Vec<(String, String)>,
}

fn label(key: &str, value: &str) -> (r: (String, String))
    ensures
        label_view(r) == (key@, value@),
{
    (String::from_str(key), String::from_str(value))
}

fn push_pid_label(labels: &mut Vec<(String, String)>, key: &str, pid: &Option<Pid>)
    ensures
        labels_view(final(labels)@) == labels_view(old(labels)@) + pid_label(key@, *pid),
{
    let ghost before = labels@;
    match pid {
        Some(p) => {
            labels.push(label(key, p.id.as_str()));
            proof {
                assert(labels_view(labels@) =~= labels_view(before) + pid_label(key@, *pid));
            }
        },
        None => {
            proof {
                assert(labels_view(labels@) =~= labels_view(before) + pid_label(key@, *pid));
            }
        },
    }
}

/// The plan for a dead letter seen by the event-stream listener.
pub fn plan_dead_letter_notice(event: &DeadLetterEvent, developer_supervision_logging: bool) -> (r:
    DeadLetterNotifyPlan)
    ensures
        r.respond_to is Some <==> event.sender is Some,
        r.respond_to is Some ==> r.respond_to->0 == event.sender->0,
        r.record_metrics == !(developer_supervision_logging && event.sender is Some),
        r.record_metrics ==> labels_view(r.labels@) == notify_labels(*event),
        !r.record_metrics ==> r.labels@.len() == 0,
{
    let respond_to = match &event.sender {
        Some(sender) => Some(sender.duplicate()),
        None => None,
    };
    if developer_supervision_logging && event.sender.is_some() {
        return DeadLetterNotifyPlan { respond_to, record_metrics: false, labels: Vec::new() };
    }
    proof {
        reveal_strlit("deadletter.phase");
        reveal_strlit("event_stream_notify");
        reveal_strlit("deadletter.event");
        reveal_strlit("dead_letter");
        reveal_strlit("deadletter.message_type");
    }
    let mut labels: Vec<(String, String)> = Vec::new();
    labels.push(label("deadletter.phase", "event_stream_notify"));
    labels.push(label("deadletter.event", "dead_letter"));
    labels.push(label("deadletter.message_type", event.message_type.as_str()));
    proof {
        assert(labels_view(labels@) =~= seq![
            ("deadletter.phase"@, "event_stream_notify"@),
            ("deadletter.event"@, "dead_letter"@),
            ("deadletter.message_type"@, event.message_type@),
        ]);
    }
    push_pid_label(&mut labels, "deadletter.target_pid", &event.pid);
    push_pid_label(&mut labels, "deadletter.sender_pid", &event.sender);
    DeadLetterNotifyPlan { respond_to, record_metrics: true, labels }
}

/// For a dead letter that was a watch request: the watcher, to be told the
/// watched process is not found, and the labels to count it under.
pub fn plan_watch_termination(event: &DeadLetterEvent) -> (r: Option<(Pid, Vec<(String, String)>)>)
    ensures
        r is Some <==> event.payload is Watch,
        r matches Some((watcher, labels)) ==> event.payload matches DeadLetterPayload::Watch {
            watcher: w,
        } && watcher == w && labels_view(labels@) == watch_labels(*event, w),
{
    match &event.payload {
        DeadLetterPayload::Watch { watcher } => {
            proof {
                reveal_strlit("deadletter.phase");
                reveal_strlit("event_stream_watch");
                reveal_strlit("deadletter.event");
                reveal_strlit("watch_termination");
                reveal_strlit("deadletter.message_type");
                reveal_strlit("deadletter.watcher_pid");
            }
            let mut labels: Vec<(String, String)> = Vec::new();
            labels.push(label("deadletter.phase", "event_stream_watch"));
            labels.push(label("deadletter.event", "watch_termination"));
            labels.push(label("deadletter.message_type", event.message_type.as_str()));
            labels.push(label("deadletter.watcher_pid", watcher.id.as_str()));
            proof {
                assert(labels_view(labels@) =~= seq![
                    ("deadletter.phase"@, "event_stream_watch"@),
                    ("deadletter.event"@, "watch_termination"@),
                    ("deadletter.message_type"@, event.message_type@),
                    ("deadletter.watcher_pid"@, watcher.id@),
                ]);
            }
            push_pid_label(&mut labels, "deadletter.target_pid", &event.pid);
            Some((watcher.duplicate(), labels))
        },
        DeadLetterPayload::Other => None,
    }
}

/// The labels a message handed to the dead-letter process is counted under.
pub fn dead_letter_publish_labels(pid: &Option<Pid>, message_type: &str) -> (r: Vec<(String, String)>)
    ensures
        labels_view(r@) == publish_labels(*pid, message_type@),
{
    proof {
        reveal_strlit("deadletter.phase");
        reveal_strlit("publish");
        reveal_strlit("deadletter.message_type");
    }
    let mut labels: Vec<(String, String)> = Vec::new();
    labels.push(label("deadletter.phase", "publish"));
    labels.push(label("deadletter.message_type", message_type));
    proof {
        assert(labels_view(labels@) =~= seq![
            ("deadletter.phase"@, "publish"@),
            ("deadletter.message_type"@, message_type@),
        ]);
    }
    push_pid_label(&mut labels, "deadletter.target_pid", pid);
    labels
}

} // verus!
