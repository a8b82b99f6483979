//! The ingest servers that the switcher watches.

use vstd::prelude::*;
use crate::switcher::ScenesView;
use crate::switcher::SwitchingScenes;

verus! {

/// A user name and password for an ingest's statistics page.
#[derive(Debug, PartialEq, Eq)]
pub struct Credentials {
    pub username: String,
    pub password: String,
}

pub struct CredentialsView {
    pub username: Seq<char>,
    pub password: Seq<char>,
}

impl View for Credentials {
    type V = CredentialsView;

    open spec fn view(&self) -> CredentialsView {
        CredentialsView { username: self.username@, password: self.password@ }
    }
}

impl DeepView for Credentials {
    type V = CredentialsView;

    open spec fn deep_view(&self) -> CredentialsView {
        self.view()
    }
}

impl Clone for Credentials {
    fn clone(&self) -> (r: Self)
        ensures
            r == *self,
    {
        Credentials { username: self.username.clone(), password: self.password.clone() }
    }
}

/// The kind of an ingest and where its statistics are found.
#[derive(Debug, PartialEq, Eq)]
pub enum Probe {
    Nginx { stats_url: String, application: String, key: String },
    NodeMediaServer {
        stats_url: String,
        application: String,
        key: String,
        auth: Option<Credentials>,
    },
    Nimble { id: String, stats_url: String, application: String, key: String },
    SrtLiveServer { stats_url: String, publisher: String },
    Belabox { stats_url: String, publisher: String },
}

pub enum ProbeView {
    Nginx { stats_url: Seq<char>, application: Seq<char>, key: Seq<char> },
    NodeMediaServer {
        stats_url: Seq<char>,
        application: Seq<char>,
        key: Seq<char>,
        auth: Option<CredentialsView>,
    },
    Nimble { id: Seq<char>, stats_url: Seq<char>, application: Seq<char>, key: Seq<char> },
    SrtLiveServer { stats_url: Seq<char>, publisher: Seq<char> },
    Belabox { stats_url: Seq<char>, publisher: Seq<char> },
}

impl View for Probe {
    type V = ProbeView;

    open spec fn view(&self) -> ProbeView {
        match *self {
            Probe::Nginx { stats_url, application, key } => ProbeView::Nginx {
                stats_url: stats_url@,
                application: application@,
                key: key@,
            },
            Probe::NodeMediaServer { stats_url, application, key, auth } => {
                ProbeView::NodeMediaServer {
                    stats_url: stats_url@,
                    application: application@,
                    key: key@,
                    auth: auth.deep_view(),
                }
            },
            Probe::Nimble { id, stats_url, application, key } => ProbeView::Nimble {
                id: id@,
                stats_url: stats_url@,
                application: application@,
                key: key@,
            },
            Probe::SrtLiveServer { stats_url, publisher } => ProbeView::SrtLiveServer {
                stats_url: stats_url@,
                publisher: publisher@,
            },
            Probe::Belabox { stats_url, publisher } => ProbeView::Belabox {
                stats_url: stats_url@,
                publisher: publisher@,
            },
        }
    }
}

impl Probe {
    /// The address of the statistics page.
    pub fn stats_url(&self) -> (r: &String)
        ensures
            r@ == (match self@ {
                ProbeView::Nginx { stats_url, .. } => stats_url,
                ProbeView::NodeMediaServer { stats_url, .. } => stats_url,
                ProbeView::Nimble { stats_url, .. } => stats_url,
                ProbeView::SrtLiveServer { stats_url, .. } => stats_url,
                ProbeView::Belabox { stats_url, .. } => stats_url,
            }),
    {
        match self {
            Probe::Nginx { stats_url, .. } => stats_url,
            Probe::NodeMediaServer { stats_url, .. } => stats_url,
            Probe::Nimble { stats_url, .. } => stats_url,
            Probe::SrtLiveServer { stats_url, .. } => stats_url,
            Probe::Belabox { stats_url, .. } => stats_url,
        }
    }
}

/// Holds back a server's healthy reports for a while after another server
/// has come online.
#[derive(Debug, PartialEq, Eq)]
pub struct DependsOn {
    /// The name of the server that this one waits for.
    pub name: String,
    /// For how many seconds after that server came online.
    pub back_to_normal_seconds: u64,
}

pub struct DependsOnView {
    pub name: Seq<char>,
    pub back_to_normal_seconds: u64,
}

impl View for DependsOn {
    type V = DependsOnView;

    open spec fn view(&self) -> DependsOnView {
        DependsOnView { name: self.name@, back_to_normal_seconds: self.back_to_normal_seconds }
    }
}

impl DeepView for DependsOn {
    type V = DependsOnView;

    open spec fn deep_view(&self) -> DependsOnView {
        self.view()
    }
}

/// One watched ingest server.
#[derive(Debug, PartialEq, Eq)]
pub struct StreamServer {
    /// The ingest's kind and where to probe it.
    pub stream_server: Probe,
    /// A name for chat messages and for `depends_on`.
    pub name: String,
    /// Lower values take precedence; a server without one comes first.
    pub priority: Option<i32>,
    /// Scenes that replace the configured ones while this server decides.
    pub override_scenes: Option<SwitchingScenes>,
    pub depends_on: Option<DependsOn>,
    /// A server that is not enabled is never probed.
    pub enabled: bool,
}

pub struct StreamServerView {
    pub stream_server: ProbeView,
    pub name: Seq<char>,
    pub priority: Option<i32>,
    pub override_scenes: Option<ScenesView>,
    pub depends_on: Option<DependsOnView>,
    pub enabled: bool,
}

impl View for StreamServer {
    type V = StreamServerView;

    open spec fn view(&self) -> StreamServerView {
        StreamServerView {
            stream_server: self.stream_server@,
            name: self.name@,
            priority: self.priority,
            override_scenes: self.override_scenes.deep_view(),
            depends_on: self.depends_on.deep_view(),
            enabled: self.enabled,
        }
    }
}

impl DeepView for StreamServer {
    type V = StreamServerView;

    open spec fn deep_view(&self) -> StreamServerView {
        self.view()
    }
}

/// The place of a priority in the order of servers: a server without a
/// priority stands before every server that has one.
pub open spec fn priority_rank(priority: Option<i32>) -> int {
    match priority {
        None => i32::MIN - 1,
        Some(p) => p as int,
    }
}

/// Whether a server with priority `a` may stand before one with priority `b`.
pub fn ranks_before_or_with(a: Option<i32>, b: Option<i32>) -> (r: bool)
    ensures
        r == (priority_rank(a) <= priority_rank(b)),
{
    match (a, b) {
        (None, _) => true,
        (Some(_), None) => false,
        (Some(x), Some(y)) => x <= y,
    }
}

} // verus!
