//! What to do with what was found where the configuration is kept.

use vstd::prelude::*;
use crate::config::legacy::environment_text;
use crate::config::legacy::migrated;
use crate::config::legacy::BotEnvironment;
use crate::config::legacy::ConfigOld;
use crate::config::Config;
use crate::config::ConfigView;
use crate::error::Error;
use crate::text::unicode_lowercase;

verus! {

/// What was found where the configuration is kept.
#[derive(Debug, PartialEq, Eq)]
pub enum Found {
    /// Nothing could be opened.
    Nothing,
    /// A configuration in the present form.
    Present(Config),
    /// A configuration in the first form.
    FirstForm(ConfigOld),
    /// Something that is a configuration in neither form.
    Unreadable,
}

/// What has to be done before a configuration that was found is used: the
/// bot's environment file is written if there is one here, the
/// configuration is saved if `save` says so, and then it is brought into
/// its working form.
#[derive(Debug, PartialEq, Eq)]
pub struct Plan {
    pub config: Config,
    pub save: bool,
    pub environment: Option<BotEnvironment>,
}

pub struct BotEnvironmentView {
    pub username: Seq<char>,
    pub oauth: Seq<char>,
    pub file: Seq<char>,
}

impl View for BotEnvironment {
    type V = BotEnvironmentView;

    open spec fn view(&self) -> BotEnvironmentView {
        BotEnvironmentView { username: self.username@, oauth: self.oauth@, file: self.file@ }
    }
}

impl DeepView for BotEnvironment {
    type V = BotEnvironmentView;

    open spec fn deep_view(&self) -> BotEnvironmentView {
        self.view()
    }
}

pub struct PlanView {
    pub config: ConfigView,
    pub save: bool,
    pub environment: Option<BotEnvironmentView>,
}

impl View for Plan {
    type V = PlanView;

    open spec fn view(&self) -> PlanView {
        PlanView {
            config: self.config@,
            save: self.save,
            environment: self.environment.deep_view(),
        }
    }
}

/// The bot's environment that a configuration in the first form gives.
pub open spec fn environment_of(o: ConfigOld) -> BotEnvironmentView {
    let username = unicode_lowercase(o.twitch_chat.bot_username@);
    BotEnvironmentView {
        username,
        oauth: o.twitch_chat.oauth@,
        file: environment_text(username, o.twitch_chat.oauth@),
    }
}

/// The plan for what was found. A configuration in the present form is
/// used as it is. One in the first form is made one in the present form
/// and saved, and the bot's environment file is written unless there is
/// one already. Anything else is an error.
pub open spec fn plan_of(found: Found, has_environment: bool) -> Result<PlanView, Error> {
    match found {
        Found::Nothing => Err(Error::ConfigFile),
        Found::Unreadable => Err(Error::Json),
        Found::Present(config) => Ok(PlanView { config: config@, save: false, environment: None }),
        Found::FirstForm(o) => match migrated(o) {
            Ok(config) => Ok(
                PlanView {
                    config,
                    save: true,
                    environment: if has_environment {
                        None
                    } else {
                        Some(environment_of(o))
                    },
                },
            ),
            Err(e) => Err(e),
        },
    }
}

/// A result with the view of what it holds.
pub open spec fn plan_outcome(r: Result<Plan, Error>) -> Result<PlanView, Error> {
    match r {
        Ok(plan) => Ok(plan@),
        Err(e) => Err(e),
    }
}

/// Makes the plan for what was found. `has_environment` says whether the
/// bot's environment file exists.
pub fn plan(found: Found, has_environment: bool) -> (r: Result<Plan, Error>)
    ensures
        plan_outcome(r) == plan_of(found, has_environment),
{
    match found {
        Found::Nothing => Err(Error::ConfigFile),
        Found::Unreadable => Err(Error::Json),
        Found::Present(config) => Ok(Plan { config, save: false, environment: None }),
        Found::FirstForm(o) => {
            let environment = if has_environment {
                None
            } else {
                Some(o.twitch_chat.bot_environment())
            };
            match Config::from(o) {
                Ok(config) => Ok(Plan { config, save: true, environment }),
                Err(e) => Err(e),
            }
        },
    }
}

} // verus!
