//! Chat: platforms, permissions, commands and the messages that travel
//! between the chat adapters and the switcher.

use vstd::prelude::*;
use crate::switcher::SwitchType;
use crate::text::ascii_lowercase;
use crate::text::make_ascii_lowercase;
use crate::text::same_text;

pub mod youtube;

verus! {

/// The chat services that can be joined.
#[derive(Debug, Clone, Copy, PartialEq, Eq, Structural)]
pub enum ChatPlatform {
    Twitch,
    Kick,
    Youtube,
}

/// Who may use a command.
#[derive(Debug, Clone, Copy, PartialEq, Eq, Structural)]
pub enum Permission {
    Admin,
    Mod,
    Public,
}

/// A chat command. A name that is no command is kept as `Unknown`.
#[derive(Debug, PartialEq, Eq)]
pub enum Command {
    Alias,
    Autostop,
    Bitrate,
    Fix,
    Noalbs,
    Notify,
    Obsinfo,
    Refresh,
    Sourceinfo,
    Start,
    Stop,
    Switch,
    Trigger,
    Otrigger,
    Rtrigger,
    Version,
    Unknown(String),
}

pub enum CommandView {
    Alias,
    Autostop,
    Bitrate,
    Fix,
    Noalbs,
    Notify,
    Obsinfo,
    Refresh,
    Sourceinfo,
    Start,
    Stop,
    Switch,
    Trigger,
    Otrigger,
    Rtrigger,
    Version,
    Unknown(Seq<char>),
}

impl View for Command {
    type V = CommandView;

    open spec fn view(&self) -> CommandView {
        match *self {
            Command::Alias => CommandView::Alias,
            Command::Autostop => CommandView::Autostop,
            Command::Bitrate => CommandView::Bitrate,
            Command::Fix => CommandView::Fix,
            Command::Noalbs => CommandView::Noalbs,
            Command::Notify => CommandView::Notify,
            Command::Obsinfo => CommandView::Obsinfo,
            Command::Refresh => CommandView::Refresh,
            Command::Sourceinfo => CommandView::Sourceinfo,
            Command::Start => CommandView::Start,
            Command::Stop => CommandView::Stop,
            Command::Switch => CommandView::Switch,
            Command::Trigger => CommandView::Trigger,
            Command::Otrigger => CommandView::Otrigger,
            Command::Rtrigger => CommandView::Rtrigger,
            Command::Version => CommandView::Version,
            Command::Unknown(name) => CommandView::Unknown(name@),
        }
    }
}

impl DeepView for Command {
    type V = CommandView;

    open spec fn deep_view(&self) -> CommandView {
        self.view()
    }
}

impl Clone for Command {
    fn clone(&self) -> (r: Self)
        ensures
            r == *self,
    {
        match self {
            Command::Alias => Command::Alias,
            Command::Autostop => Command::Autostop,
            Command::Bitrate => Command::Bitrate,
            Command::Fix => Command::Fix,
            Command::Noalbs => Command::Noalbs,
            Command::Notify => Command::Notify,
            Command::Obsinfo => Command::Obsinfo,
            Command::Refresh => Command::Refresh,
            Command::Sourceinfo => Command::Sourceinfo,
            Command::Start => Command::Start,
            Command::Stop => Command::Stop,
            Command::Switch => Command::Switch,
            Command::Trigger => Command::Trigger,
            Command::Otrigger => Command::Otrigger,
            Command::Rtrigger => Command::Rtrigger,
            Command::Version => Command::Version,
            Command::Unknown(name) => Command::Unknown(name.clone()),
        }
    }
}

impl CommandView {
    /// A number that tells the commands apart; every unknown name has the
    /// same one.
    pub open spec fn ordinal(self) -> int {
        match self {
            CommandView::Alias => 0,
            CommandView::Autostop => 1,
            CommandView::Bitrate => 2,
            CommandView::Fix => 3,
            CommandView::Noalbs => 4,
            CommandView::Notify => 5,
            CommandView::Obsinfo => 6,
            CommandView::Refresh => 7,
            CommandView::Sourceinfo => 8,
            CommandView::Start => 9,
            CommandView::Stop => 10,
            CommandView::Switch => 11,
            CommandView::Trigger => 12,
            CommandView::Otrigger => 13,
            CommandView::Rtrigger => 14,
            CommandView::Version => 15,
            CommandView::Unknown(_) => 16,
        }
    }
}

/// The command that a name stands for. Names are matched exactly, in lower
/// case.
pub open spec fn command_named(name: Seq<char>) -> CommandView {
    if name == "alias"@ {
        CommandView::Alias
    } else if name == "autostop"@ {
        CommandView::Autostop
    } else if name == "bitrate"@ {
        CommandView::Bitrate
    } else if name == "fix"@ {
        CommandView::Fix
    } else if name == "noalbs"@ {
        CommandView::Noalbs
    } else if name == "notify"@ {
        CommandView::Notify
    } else if name == "obsinfo"@ {
        CommandView::Obsinfo
    } else if name == "refresh"@ {
        CommandView::Refresh
    } else if name == "sourceinfo"@ {
        CommandView::Sourceinfo
    } else if name == "start"@ {
        CommandView::Start
    } else if name == "stop"@ {
        CommandView::Stop
    } else if name == "switch"@ {
        CommandView::Switch
    } else if name == "trigger"@ {
        CommandView::Trigger
    } else if name == "otrigger"@ {
        CommandView::Otrigger
    } else if name == "rtrigger"@ {
        CommandView::Rtrigger
    } else if name == "version"@ {
        CommandView::Version
    } else {
        CommandView::Unknown(name)
    }
}

impl Command {
    /// The command that a name stands for.
    pub fn from_name(name: &str) -> (r: Command)
        ensures
            r@ == command_named(name@),
    {
        if same_text(name, "alias") {
            Command::Alias
        } else if same_text(name, "autostop") {
            Command::Autostop
        } else if same_text(name, "bitrate") {
            Command::Bitrate
        } else if same_text(name, "fix") {
            Command::Fix
        } else if same_text(name, "noalbs") {
            Command::Noalbs
        } else if same_text(name, "notify") {
            Command::Notify
        } else if same_text(name, "obsinfo") {
            Command::Obsinfo
        } else if same_text(name, "refresh") {
            Command::Refresh
        } else if same_text(name, "sourceinfo") {
            Command::Sourceinfo
        } else if same_text(name, "start") {
            Command::Start
        } else if same_text(name, "stop") {
            Command::Stop
        } else if same_text(name, "switch") {
            Command::Switch
        } else if same_text(name, "trigger") {
            Command::Trigger
        } else if same_text(name, "otrigger") {
            Command::Otrigger
        } else if same_text(name, "rtrigger") {
            Command::Rtrigger
        } else if same_text(name, "version") {
            Command::Version
        } else {
            Command::Unknown(name.to_owned())
        }
    }

    fn ordinal(&self) -> (r: u8)
        ensures
            r == self@.ordinal(),
    {
        match self {
            Command::Alias => 0,
            Command::Autostop => 1,
            Command::Bitrate => 2,
            Command::Fix => 3,
            Command::Noalbs => 4,
            Command::Notify => 5,
            Command::Obsinfo => 6,
            Command::Refresh => 7,
            Command::Sourceinfo => 8,
            Command::Start => 9,
            Command::Stop => 10,
            Command::Switch => 11,
            Command::Trigger => 12,
            Command::Otrigger => 13,
            Command::Rtrigger => 14,
            Command::Version => 15,
            Command::Unknown(_) => 16,
        }
    }

    /// Whether two commands are the same; two unknown ones are the same when
    /// their names are.
    pub fn same(&self, other: &Command) -> (r: bool)
        ensures
            r == (self@ == other@),
    {
        match (self, other) {
            (Command::Unknown(a), Command::Unknown(b)) => same_text(a.as_str(), b.as_str()),
            _ => self.ordinal() == other.ordinal(),
        }
    }
}

/// The languages that chat replies can be written in.
#[derive(Debug, Clone, Copy, PartialEq, Eq, Structural)]
pub enum ChatLanguage {
    DE,
    DK,
    EN,
    ES,
    FR,
    IT,
    NB,
    NL,
    PL,
    PTBR,
    RU,
    SV,
    TR,
    ZHTW,
}

/// The language that a code names, in lower case.
pub open spec fn language_coded(code: Seq<char>) -> Option<ChatLanguage> {
    if code == "de"@ {
        Some(ChatLanguage::DE)
    } else if code == "dk"@ {
        Some(ChatLanguage::DK)
    } else if code == "en"@ {
        Some(ChatLanguage::EN)
    } else if code == "es"@ {
        Some(ChatLanguage::ES)
    } else if code == "fr"@ {
        Some(ChatLanguage::FR)
    } else if code == "it"@ {
        Some(ChatLanguage::IT)
    } else if code == "nb"@ {
        Some(ChatLanguage::NB)
    } else if code == "nl"@ {
        Some(ChatLanguage::NL)
    } else if code == "pl"@ {
        Some(ChatLanguage::PL)
    } else if code == "ptbr"@ {
        Some(ChatLanguage::PTBR)
    } else if code == "ru"@ {
        Some(ChatLanguage::RU)
    } else if code == "sv"@ {
        Some(ChatLanguage::SV)
    } else if code == "tr"@ {
        Some(ChatLanguage::TR)
    } else if code == "zhtw"@ {
        Some(ChatLanguage::ZHTW)
    } else {
        None
    }
}

impl ChatLanguage {
    /// Reads a language code, in either case of ASCII letters.
    pub fn parse(code: &str) -> (r: Option<ChatLanguage>)
        ensures
            r == language_coded(ascii_lowercase(code@)),
    {
        let mut lowered = code.to_owned();
        make_ascii_lowercase(&mut lowered);
        let code = lowered.as_str();
        if same_text(code, "de") {
            Some(ChatLanguage::DE)
        } else if same_text(code, "dk") {
            Some(ChatLanguage::DK)
        } else if same_text(code, "en") {
            Some(ChatLanguage::EN)
        } else if same_text(code, "es") {
            Some(ChatLanguage::ES)
        } else if same_text(code, "fr") {
            Some(ChatLanguage::FR)
        } else if same_text(code, "it") {
            Some(ChatLanguage::IT)
        } else if same_text(code, "nb") {
            Some(ChatLanguage::NB)
        } else if same_text(code, "nl") {
            Some(ChatLanguage::NL)
        } else if same_text(code, "pl") {
            Some(ChatLanguage::PL)
        } else if same_text(code, "ptbr") {
            Some(ChatLanguage::PTBR)
        } else if same_text(code, "ru") {
            Some(ChatLanguage::RU)
        } else if same_text(code, "sv") {
            Some(ChatLanguage::SV)
        } else if same_text(code, "tr") {
            Some(ChatLanguage::TR)
        } else if same_text(code, "zhtw") {
            Some(ChatLanguage::ZHTW)
        } else {
            None
        }
    }
}

/// A message that someone wrote in a chat.
#[derive(Debug, PartialEq, Eq)]
pub struct ChatMessage {
    pub platform: ChatPlatform,
    pub permission: Permission,
    pub sender: String,
    pub message: String,
    pub channel: String,
}

pub struct ChatMessageView {
    pub platform: ChatPlatform,
    pub permission: Permission,
    pub sender: Seq<char>,
    pub message: Seq<char>,
    pub channel: Seq<char>,
}

impl View for ChatMessage {
    type V = ChatMessageView;

    open spec fn view(&self) -> ChatMessageView {
        ChatMessageView {
            platform: self.platform,
            permission: self.permission,
            sender: self.sender@,
            message: self.message@,
            channel: self.channel@,
        }
    }
}

/// Tells a chat that the switcher has changed the scene.
#[derive(Debug, PartialEq, Eq)]
pub struct AutomaticSwitchingScene {
    pub platform: ChatPlatform,
    pub channel: String,
    pub scene: String,
    pub switch_type: SwitchType,
}

pub struct AutomaticSwitchingSceneView {
    pub platform: ChatPlatform,
    pub channel: Seq<char>,
    pub scene: Seq<char>,
    pub switch_type: SwitchType,
}

impl View for AutomaticSwitchingScene {
    type V = AutomaticSwitchingSceneView;

    open spec fn view(&self) -> AutomaticSwitchingSceneView {
        AutomaticSwitchingSceneView {
            platform: self.platform,
            channel: self.channel@,
            scene: self.scene@,
            switch_type: self.switch_type,
        }
    }
}

impl DeepView for AutomaticSwitchingScene {
    type V = AutomaticSwitchingSceneView;

    open spec fn deep_view(&self) -> AutomaticSwitchingSceneView {
        self.view()
    }
}

/// What travels on the queue to the chat handler.
#[derive(Debug, PartialEq, Eq)]
pub enum HandleMessage {
    /// Someone wrote in a chat.
    ChatMessage(ChatMessage),
    /// The switcher changed the scene.
    AutomaticSwitchingScene(AutomaticSwitchingScene),
}

} // verus!
