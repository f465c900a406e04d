//! The daemon's error values: what failed, with the context it failed in and
//! the message of the underlying failure.

use vstd::prelude::*;
use vstd::string::*;

verus! {

/// A failure of the daemon's configuration plumbing. `source` is the message
/// of the failure that caused it.
#[derive(Debug)]
pub enum Error {
    ConfigInit { namespace: &'static str, source: String },
    ConfigRead { namespace: &'static str, key: String, source: String },
    WatcherSetup { watcher: &'static str, source: String },
    ChannelLock { channel: &'static str },
    ChannelSend { channel: &'static str, source: String },
}

/// The mathematical value of an [`Error`].
pub enum ErrorView {
    ConfigInit { namespace: Seq<char>, source: Seq<char> },
    ConfigRead { namespace: Seq<char>, key: Seq<char>, source: Seq<char> },
    WatcherSetup { watcher: Seq<char>, source: Seq<char> },
    ChannelLock { channel: Seq<char> },
    ChannelSend { channel: Seq<char>, source: Seq<char> },
}

impl View for Error {
    type V = ErrorView;

    open spec fn view(&self) -> ErrorView {
        match self {
            Error::ConfigInit { namespace, source } => ErrorView::ConfigInit {
                namespace: namespace@,
                source: source@,
            },
            Error::ConfigRead { namespace, key, source } => ErrorView::ConfigRead {
                namespace: namespace@,
                key: key@,
                source: source@,
            },
            Error::WatcherSetup { watcher, source } => ErrorView::WatcherSetup {
                watcher: watcher@,
                source: source@,
            },
            Error::ChannelLock { channel } => ErrorView::ChannelLock { channel: channel@ },
            Error::ChannelSend { channel, source } => ErrorView::ChannelSend {
                channel: channel@,
                source: source@,
            },
        }
    }
}

/// The one-line description of an error.
pub open spec fn error_message(e: ErrorView) -> Seq<char> {
    match e {
        ErrorView::ConfigInit { namespace, .. } => "failed to initialise config for "@ + namespace,
        ErrorView::ConfigRead { namespace, key, .. } => "failed to read config key "@ + namespace
            + "."@ + key,
        ErrorView::WatcherSetup { watcher, .. } => "failed to set up "@ + watcher + " watcher"@,
        ErrorView::ChannelLock { channel } => "failed to lock the "@ + channel + " event channel"@,
        ErrorView::ChannelSend { channel, .. } => "failed to send "@ + channel + " event"@,
    }
}

/// The message of the failure that caused an error, if there is one.
pub open spec fn error_source(e: ErrorView) -> Option<Seq<char>> {
    match e {
        ErrorView::ConfigInit { source, .. } => Some(source),
        ErrorView::ConfigRead { source, .. } => Some(source),
        ErrorView::WatcherSetup { source, .. } => Some(source),
        ErrorView::ChannelLock { .. } => None,
        ErrorView::ChannelSend { source, .. } => Some(source),
    }
}

impl Error {
    /// The configuration store of `namespace` could not be opened.
    pub fn config_init(namespace: &'static str, source: String) -> (r: Self)
        ensures
            r@ == (ErrorView::ConfigInit { namespace: namespace@, source: source@ }),
    {
        Error::ConfigInit { namespace, source }
    }

    /// The key `key` of `namespace` could not be read.
    pub fn config_read(namespace: &'static str, key: &str, source: String) -> (r: Self)
        ensures
            r@ == (ErrorView::ConfigRead { namespace: namespace@, key: key@, source: source@ }),
    {
        Error::ConfigRead { namespace, key: String::from_str(key), source }
    }

    /// The watcher `watcher` could not be set up.
    pub fn watcher_setup(watcher: &'static str, source: String) -> (r: Self)
        ensures
            r@ == (ErrorView::WatcherSetup { watcher: watcher@, source: source@ }),
    {
        Error::WatcherSetup { watcher, source }
    }

    /// The event channel `channel` could not be locked.
    pub fn channel_lock(channel: &'static str) -> (r: Self)
        ensures
            r@ == (ErrorView::ChannelLock { channel: channel@ }),
    {
        Error::ChannelLock { channel }
    }

    /// An event could not be sent on the channel `channel`.
    pub fn channel_send(channel: &'static str, source: String) -> (r: Self)
        ensures
            r@ == (ErrorView::ChannelSend { channel: channel@, source: source@ }),
    {
        Error::ChannelSend { channel, source }
    }

    /// The one-line description of this error.
    pub fn message(&self) -> (r: String)
        ensures
            r@ == error_message(self@),
    {
        match self {
            Error::ConfigInit { namespace, .. } => {
                let mut s = String::from_str("failed to initialise config for ");
                s.append(namespace);
                s
            },
            Error::ConfigRead { namespace, key, .. } => {
                let mut s = String::from_str("failed to read config key ");
                s.append(namespace);
                s.append(".");
                s.append(key.as_str());
                s
            },
            Error::WatcherSetup { watcher, .. } => {
                let mut s = String::from_str("failed to set up ");
                s.append(watcher);
                s.append(" watcher");
                s
            },
            Error::ChannelLock { channel } => {
                let mut s = String::from_str("failed to lock the ");
                s.append(channel);
                s.append(" event channel");
                s
            },
            Error::ChannelSend { channel, .. } => {
                let mut s = String::from_str("failed to send ");
                s.append(channel);
                s.append(" event");
                s
            },
        }
    }

    /// The message of the failure that caused this error, if there is one.
    pub fn source(&self) -> (r: Option<String>)
        ensures
            opt_message(r) == error_source(self@),
    {
        match self {
            Error::ConfigInit { source, .. } => Some(source.clone()),
            Error::ConfigRead { source, .. } => Some(source.clone()),
            Error::WatcherSetup { source, .. } => Some(source.clone()),
            Error::ChannelLock { .. } => None,
            Error::ChannelSend { source, .. } => Some(source.clone()),
        }
    }
}

/// The text of an optional message.
pub open spec fn opt_message(m: Option<String>) -> Option<Seq<char>> {
    match m {
        Some(s) => Some(s@),
        None => None,
    }
}

/// Every error made with a source keeps it as its source; a lock failure has none.
pub proof fn lemma_constructors_keep_source(
    name: Seq<char>,
    key: Seq<char>,
    source: Seq<char>,
)
    ensures
        error_source(ErrorView::ConfigInit { namespace: name, source }) == Some(source),
        error_source(ErrorView::ConfigRead { namespace: name, key, source }) == Some(source),
        error_source(ErrorView::WatcherSetup { watcher: name, source }) == Some(source),
        error_source(ErrorView::ChannelLock { channel: name }) is None,
        error_source(ErrorView::ChannelSend { channel: name, source }) == Some(source),
{
}

/// The description of an error names its context only: two errors that
/// differ in their source alone have the same description.
pub proof fn lemma_message_ignores_source(
    name: Seq<char>,
    key: Seq<char>,
    s1: Seq<char>,
    s2: Seq<char>,
)
    ensures
        error_message(ErrorView::ConfigInit { namespace: name, source: s1 }) == error_message(
            ErrorView::ConfigInit { namespace: name, source: s2 },
        ),
        error_message(ErrorView::ConfigRead { namespace: name, key, source: s1 }) == error_message(
            ErrorView::ConfigRead { namespace: name, key, source: s2 },
        ),
        error_message(ErrorView::WatcherSetup { watcher: name, source: s1 }) == error_message(
            ErrorView::WatcherSetup { watcher: name, source: s2 },
        ),
        error_message(ErrorView::ChannelSend { channel: name, source: s1 }) == error_message(
            ErrorView::ChannelSend { channel: name, source: s2 },
        ),
{
}

/// The description of an error ends with its context: the namespace and
/// key read, or the watcher or channel, followed by a fixed word for the
/// kinds that have one.
pub proof fn lemma_message_ends_with_context(name: Seq<char>, key: Seq<char>, source: Seq<char>)
    ensures
        ({
            let m = error_message(ErrorView::ConfigInit { namespace: name, source });
            m.subrange(m.len() - name.len(), m.len() as int) == name
        }),
        ({
            let m = error_message(ErrorView::ConfigRead { namespace: name, key, source });
            let tail = name + "."@ + key;
            m.subrange(m.len() - tail.len(), m.len() as int) == tail
        }),
        ({
            let m = error_message(ErrorView::WatcherSetup { watcher: name, source });
            let tail = name + " watcher"@;
            m.subrange(m.len() - tail.len(), m.len() as int) == tail
        }),
        ({
            let m = error_message(ErrorView::ChannelLock { channel: name });
            let tail = name + " event channel"@;
            m.subrange(m.len() - tail.len(), m.len() as int) == tail
        }),
        ({
            let m = error_message(ErrorView::ChannelSend { channel: name, source });
            let tail = name + " event"@;
            m.subrange(m.len() - tail.len(), m.len() as int) == tail
        }),
{
    let m1 = error_message(ErrorView::ConfigInit { namespace: name, source });
    assert(m1.subrange(m1.len() - name.len(), m1.len() as int) =~= name);
    let m2 = error_message(ErrorView::ConfigRead { namespace: name, key, source });
    let t2 = name + "."@ + key;
    assert(m2 =~= "failed to read config key "@ + t2);
    assert(m2.subrange(m2.len() - t2.len(), m2.len() as int) =~= t2);
    let m3 = error_message(ErrorView::WatcherSetup { watcher: name, source });
    let t3 = name + " watcher"@;
    assert(m3 =~= "failed to set up "@ + t3);
    assert(m3.subrange(m3.len() - t3.len(), m3.len() as int) =~= t3);
    let m4 = error_message(ErrorView::ChannelLock { channel: name });
    let t4 = name + " event channel"@;
    assert(m4 =~= "failed to lock the "@ + t4);
    assert(m4.subrange(m4.len() - t4.len(), m4.len() as int) =~= t4);
    let m5 = error_message(ErrorView::ChannelSend { channel: name, source });
    let t5 = name + " event"@;
    assert(m5 =~= "failed to send "@ + t5);
    assert(m5.subrange(m5.len() - t5.len(), m5.len() as int) =~= t5);
}

} // verus!
