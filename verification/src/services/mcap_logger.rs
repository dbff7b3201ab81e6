//! Recording control: which topics a session records and what it is called.
use crate::config::LoggingSettings;
use crate::fixed::{elapsed, elapsed_spec};
use crate::messages::{LogAction, LogControl, LogStatus};
use crate::telemetry::{TOPIC_CAMERA_BASE, TOPIC_CAMERA_WRIST};
use vstd::prelude::*;
use vstd::string::StringExecFns;

verus! {

/// True when `topic` is one of `topics`.
pub fn topic_selected(topics: &Vec<String>, topic: &str) -> (found: bool)
    ensures
        found == topics.deep_view().contains(topic@),
{
    let wanted = topic.to_owned();
    let mut i: usize = 0;
    while i < topics.len()
        invariant
            i <= topics@.len(),
            wanted@ == topic@,
            forall|k: int| 0 <= k < i ==> #[trigger] topics.deep_view()[k] != topic@,
        decreases topics@.len() - i,
    {
        assert(topics.deep_view()[i as int] == topics@[i as int]@);
        if topics[i] == wanted {
            return true;
        }
        i += 1;
    }
    false
}

/// The topics a request names, or the configured defaults when it names none.
pub open spec fn requested_or_default(
    logging: LoggingSettings,
    requested: Option<Vec<String>>,
) -> Seq<Seq<char>> {
    match requested {
        Some(list) => if list@.len() > 0 {
            list.deep_view()
        } else {
            logging.default_topics.deep_view()
        },
        None => logging.default_topics.deep_view(),
    }
}

/// The set of topics a session records: those requested, or the defaults when
/// none are, and both camera topics as well when cameras are included.
pub open spec fn resolve_topics_spec(
    logging: LoggingSettings,
    requested: Option<Vec<String>>,
) -> Set<Seq<char>> {
    let base = requested_or_default(logging, requested).to_set();
    if logging.include_cameras {
        base.insert(TOPIC_CAMERA_BASE@).insert(TOPIC_CAMERA_WRIST@)
    } else {
        base
    }
}

/// Appends `topic` unless it is already there.
fn insert_topic(topics: &mut Vec<String>, topic: &str)
    requires
        old(topics).deep_view().no_duplicates(),
    ensures
        final(topics).deep_view().no_duplicates(),
        final(topics).deep_view().to_set() == old(topics).deep_view().to_set().insert(topic@),
{
    let ghost before = topics.deep_view();
    if !topic_selected(topics, topic) {
        topics.push(topic.to_owned());
        assert(topics.deep_view() =~= before.push(topic@));
        assert(before.push(topic@).to_set() =~= before.to_set().insert(topic@)) by {
            assert forall|t: Seq<char>| before.to_set().insert(topic@).contains(t) implies before.push(
                topic@,
            ).contains(t) by {
                if t == topic@ {
                    assert(before.push(topic@)[before.len() as int] == t);
                } else {
                    let k = choose|k: int| 0 <= k < before.len() && before[k] == t;
                    assert(before.push(topic@)[k] == t);
                }
            }
        }
    } else {
        assert(before.to_set().insert(topic@) =~= before.to_set());
    }
}

/// Settles which topics a session records. The result names each topic once.
pub fn resolve_topics(logging: &LoggingSettings, requested: Option<Vec<String>>) -> (topics: Vec<
    String,
>)
    ensures
        topics.deep_view().no_duplicates(),
        topics.deep_view().to_set() == resolve_topics_spec(*logging, requested),
{
    let mut topics: Vec<String> = Vec::new();
    assert(topics.deep_view() =~= Seq::<Seq<char>>::empty());
    let ghost wanted = requested_or_default(*logging, requested);
    let use_requested = match &requested {
        Some(list) => list.len() > 0,
        None => false,
    };
    let source: &Vec<String> = match &requested {
        Some(list) => if use_requested {
            list
        } else {
            &logging.default_topics
        },
        None => &logging.default_topics,
    };
    assert(source.deep_view() == wanted);
    let mut i: usize = 0;
    while i < source.len()
        invariant
            i <= source@.len(),
            source.deep_view() == wanted,
            topics.deep_view().no_duplicates(),
            topics.deep_view().to_set() =~= wanted.subrange(0, i as int).to_set(),
        decreases source@.len() - i,
    {
        assert(source.deep_view()[i as int] == source@[i as int]@);
        insert_topic(&mut topics, source[i].as_str());
        assert(wanted.subrange(0, i + 1) =~= wanted.subrange(0, i as int).push(wanted[i as int]));
        assert(wanted.subrange(0, i as int).push(wanted[i as int]).to_set() =~= wanted.subrange(
            0,
            i as int,
        ).to_set().insert(wanted[i as int])) by {
            let shorter = wanted.subrange(0, i as int);
            let longer = shorter.push(wanted[i as int]);
            assert forall|t: Seq<char>| shorter.to_set().insert(wanted[i as int]).contains(
                t,
            ) implies longer.contains(t) by {
                if t == wanted[i as int] {
                    assert(longer[i as int] == t);
                } else {
                    let k = choose|k: int| 0 <= k < shorter.len() && shorter[k] == t;
                    assert(longer[k] == t);
                }
            }
        }
        i += 1;
    }
    assert(wanted.subrange(0, i as int) =~= wanted);
    if logging.include_cameras {
        insert_topic(&mut topics, TOPIC_CAMERA_BASE);
        insert_topic(&mut topics, TOPIC_CAMERA_WRIST);
    }
    topics
}

/// The character that writes the digit `d`.
pub open spec fn digit_char(d: nat) -> char
    recommends
        d < 10,
{
    if d == 0 {
        '0'
    } else if d == 1 {
        '1'
    } else if d == 2 {
        '2'
    } else if d == 3 {
        '3'
    } else if d == 4 {
        '4'
    } else if d == 5 {
        '5'
    } else if d == 6 {
        '6'
    } else if d == 7 {
        '7'
    } else if d == 8 {
        '8'
    } else {
        '9'
    }
}

/// The decimal numeral of `n`, without leading zeros.
pub open spec fn decimal_spec(n: nat) -> Seq<char>
    decreases n,
{
    if n < 10 {
        seq![digit_char(n)]
    } else {
        decimal_spec(n / 10).push(digit_char(n % 10))
    }
}

/// The one-character text of a digit.
fn digit_text(d: u64) -> (text: &'static str)
    requires
        d < 10,
    ensures
        text@ == seq![digit_char(d as nat)],
{
    proof {
        reveal_strlit("0");
        reveal_strlit("1");
        reveal_strlit("2");
        reveal_strlit("3");
        reveal_strlit("4");
        reveal_strlit("5");
        reveal_strlit("6");
        reveal_strlit("7");
        reveal_strlit("8");
        reveal_strlit("9");
    }
    let text = if d == 0 {
        "0"
    } else if d == 1 {
        "1"
    } else if d == 2 {
        "2"
    } else if d == 3 {
        "3"
    } else if d == 4 {
        "4"
    } else if d == 5 {
        "5"
    } else if d == 6 {
        "6"
    } else if d == 7 {
        "7"
    } else if d == 8 {
        "8"
    } else {
        "9"
    };
    assert(text@ =~= seq![digit_char(d as nat)]);
    text
}

/// Writes `n` as a decimal numeral.
pub fn decimal(n: u64) -> (text: String)
    ensures
        text@ == decimal_spec(n as nat),
    decreases n,
{
    if n < 10 {
        digit_text(n).to_owned()
    } else {
        let mut text = decimal(n / 10);
        text.append(digit_text(n % 10));
        assert(text@ =~= decimal_spec((n / 10) as nat).push(digit_char((n % 10) as nat)));
        text
    }
}

/// The file a session is recorded to: the session's name, or `session-` and the
/// time when it has none, with the extension `.mcap`.
pub open spec fn log_file_name_spec(session: Option<Seq<char>>, now_ns: u64) -> Seq<char> {
    match session {
        Some(name) => name + ".mcap"@,
        None => "session-"@ + decimal_spec(now_ns as nat) + ".mcap"@,
    }
}

/// Names the file a session is recorded to.
pub fn log_file_name(session: Option<&str>, now_ns: u64) -> (name: String)
    ensures
        name@ == log_file_name_spec(
            match session {
                Some(text) => Some(text@),
                None => None,
            },
            now_ns,
        ),
{
    let mut name = match session {
        Some(text) => text.to_owned(),
        None => {
            let mut fresh = "session-".to_owned();
            let stamp = decimal(now_ns);
            fresh.append(stamp.as_str());
            fresh
        },
    };
    name.append(".mcap");
    name
}

/// What the recorder remembers between requests.
#[derive(Debug)]
pub struct Recorder {
    /// True while a session is being recorded.
    pub active: bool,
    /// The file of the session being recorded.
    pub active_path: Option<String>,
    /// When the session being recorded started.
    pub start_ns: Option<u64>,
}

/// What a recording request calls for.
#[derive(Debug)]
pub enum RecorderPlan {
    /// A start was asked for while a session is being recorded: nothing is done.
    AlreadyActive,
    /// A session is to be opened on this file, recording these topics.
    Open { file_name: String, topics: Vec<String> },
    /// The session, if there is one, is to be closed.
    Close,
}

impl Recorder {
    /// A recorder that is not recording.
    pub fn new() -> (recorder: Recorder)
        ensures
            !recorder.active,
            recorder.active_path is None,
            recorder.start_ns is None,
    {
        Recorder { active: false, active_path: None, start_ns: None }
    }

    /// Decides what a request calls for. A start while recording is refused; any
    /// other start opens a session whose file and topics are settled here; a
    /// stop always closes.
    pub fn plan(&self, logging: &LoggingSettings, control: LogControl, wall_ns: u64) -> (plan:
        RecorderPlan)
        ensures
            match plan {
                RecorderPlan::AlreadyActive => control.action == LogAction::Start && self.active,
                RecorderPlan::Open { file_name, topics } => {
                    &&& control.action == LogAction::Start
                    &&& !self.active
                    &&& file_name@ == log_file_name_spec(
                        match control.session_name {
                            Some(text) => Some(text@),
                            None => None,
                        },
                        wall_ns,
                    )
                    &&& topics.deep_view().no_duplicates()
                    &&& topics.deep_view().to_set() == resolve_topics_spec(
                        *logging,
                        control.topics,
                    )
                },
                RecorderPlan::Close => control.action == LogAction::Stop,
            },
    {
        match control.action {
            LogAction::Start => {
                if self.active {
                    RecorderPlan::AlreadyActive
                } else {
                    let file_name = match &control.session_name {
                        Some(text) => log_file_name(Some(text.as_str()), wall_ns),
                        None => log_file_name(None, wall_ns),
                    };
                    let topics = resolve_topics(logging, control.topics);
                    RecorderPlan::Open { file_name, topics }
                }
            },
            LogAction::Stop => RecorderPlan::Close,
        }
    }

    /// Records that a session was opened on `path`, and reports it.
    pub fn started(&mut self, path: String, now_ns: u64, stamp_ns: u64) -> (status: LogStatus)
        ensures
            final(self).active,
            final(self).active_path == Some(path),
            final(self).start_ns == Some(now_ns),
            status.timestamp_ns == stamp_ns,
            status.active,
            status.file_path == Some(path),
            status.size_bytes is None,
            status.duration_ns is None,
    {
        let reported = path.clone();
        self.active = true;
        self.active_path = Some(path);
        self.start_ns = Some(now_ns);
        LogStatus {
            timestamp_ns: stamp_ns,
            active: true,
            file_path: Some(reported),
            size_bytes: None,
            duration_ns: None,
        }
    }

    /// Records that recording stopped, and reports the file and duration of the
    /// session that ended, if there was one.
    pub fn stopped(&mut self, now_ns: u64, stamp_ns: u64) -> (status: LogStatus)
        ensures
            !final(self).active,
            final(self).active_path is None,
            final(self).start_ns is None,
            status.timestamp_ns == stamp_ns,
            !status.active,
            status.file_path == old(self).active_path,
            status.size_bytes is None,
            status.duration_ns == match old(self).start_ns {
                Some(started_ns) => Some(elapsed_spec(now_ns, started_ns) as u64),
                None => None,
            },
    {
        let duration_ns = match self.start_ns {
            Some(started_ns) => Some(elapsed(now_ns, started_ns)),
            None => None,
        };
        self.active = false;
        self.start_ns = None;
        LogStatus {
            timestamp_ns: stamp_ns,
            active: false,
            file_path: self.active_path.take(),
            size_bytes: None,
            duration_ns,
        }
    }
}

} // verus!
