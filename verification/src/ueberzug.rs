//! The compositor client: the messages that add and remove image overlays,
//! one JSON object per line, and the state of the session with the
//! compositor process.

use crate::error::Error;
use crate::text::{
    decimal, json_string, lemma_decimal_is_unbroken, lemma_json_string_is_unbroken,
    lemma_signed_decimal_is_unbroken, push_decimal, push_json_string, push_signed_decimal,
    signed_decimal, unbroken,
};
use vstd::prelude::*;
use vstd::string::*;

verus! {

/// What a message asks of the compositor.
#[derive(Clone, Copy, Debug, PartialEq, Eq, Structural)]
pub enum Actions {
    Add,
    Remove,
}

impl Actions {
    /// The word of the action in a message.
    pub open spec fn name(self) -> Seq<char> {
        match self {
            Actions::Add => "add"@,
            Actions::Remove => "remove"@,
        }
    }

    /// The word of the action in a message.
    pub fn to_string(&self) -> (r: String)
        ensures
            r@ == self.name(),
    {
        match self {
            Actions::Add => String::from_str("add"),
            Actions::Remove => String::from_str("remove"),
        }
    }
}

/// The ways in which the compositor fits an image into its box.
#[derive(Clone, Copy, Debug, PartialEq, Eq, Structural)]
pub enum Scalers {
    Crop,
    Distort,
    FitContain,
    Contain,
    ForcedCover,
    Cover,
}

impl Scalers {
    /// The word of the scaler in a message.
    pub open spec fn name(self) -> Seq<char> {
        match self {
            Scalers::Crop => "crop"@,
            Scalers::Distort => "distort"@,
            Scalers::FitContain => "fit_contain"@,
            Scalers::Contain => "contain"@,
            Scalers::ForcedCover => "forced_cover"@,
            Scalers::Cover => "cover"@,
        }
    }

    /// The word of the scaler in a message.
    pub fn to_string(&self) -> (r: String)
        ensures
            r@ == self.name(),
    {
        match self {
            Scalers::Crop => String::from_str("crop"),
            Scalers::Distort => String::from_str("distort"),
            Scalers::FitContain => String::from_str("fit_contain"),
            Scalers::Contain => String::from_str("contain"),
            Scalers::ForcedCover => String::from_str("forced_cover"),
            Scalers::Cover => String::from_str("cover"),
        }
    }
}

/// One message to the compositor: an overlay, named by its identifier, to add
/// at a grid position or to remove.
#[derive(Debug)]
pub struct UeConf {
    pub action: Actions,
    pub identifier: String,
    pub x: i64,
    pub y: i64,
    pub path: String,
    pub width: Option<u16>,
    pub height: Option<u16>,
    pub scaler: Option<Scalers>,
}

/// A message as a value.
pub struct UeConfView {
    pub action: Actions,
    pub identifier: Seq<char>,
    pub x: int,
    pub y: int,
    pub path: Seq<char>,
    pub width: Option<u16>,
    pub height: Option<u16>,
    pub scaler: Option<Scalers>,
}

impl View for UeConf {
    type V = UeConfView;

    open spec fn view(&self) -> UeConfView {
        UeConfView {
            action: self.action,
            identifier: self.identifier@,
            x: self.x as int,
            y: self.y as int,
            path: self.path@,
            width: self.width,
            height: self.height,
            scaler: self.scaler,
        }
    }
}

/// The messages of a list as values.
pub open spec fn message_views(messages: Seq<UeConf>) -> Seq<UeConfView> {
    messages.map_values(|m: UeConf| m@)
}

/// A member of a message that holds a number, or nothing where there is none.
pub open spec fn number_member(key: Seq<char>, value: Option<u16>) -> Seq<char> {
    match value {
        Some(n) => key + decimal(n as nat),
        None => Seq::empty(),
    }
}

/// The member of a message that names the scaler, or nothing where there is
/// none.
pub open spec fn scaler_member(value: Option<Scalers>) -> Seq<char> {
    match value {
        Some(s) => ",\"scaler\":\""@ + s.name() + "\""@,
        None => Seq::empty(),
    }
}

impl UeConfView {
    /// A message names its overlay, and one that adds an overlay names the
    /// file of its image.
    pub open spec fn complete(self) -> bool {
        &&& self.identifier.len() > 0
        &&& self.action == Actions::Add ==> self.path.len() > 0
    }

    /// The line that adds the overlay: the members that are absent are left
    /// out.
    pub open spec fn add_line(self) -> Seq<char> {
        "{\"action\":\"add\",\"identifier\":"@ + json_string(self.identifier) + ",\"path\":"@
            + json_string(self.path) + ",\"x\":"@ + signed_decimal(self.x) + ",\"y\":"@
            + signed_decimal(self.y) + number_member(",\"width\":"@, self.width) + number_member(
            ",\"height\":"@,
            self.height,
        ) + scaler_member(self.scaler) + "}\n"@
    }

    /// The line that removes the overlay.
    pub open spec fn remove_line(self) -> Seq<char> {
        "{\"action\":\"remove\",\"identifier\":"@ + json_string(self.identifier) + "}\n"@
    }

    /// The line of the message.
    pub open spec fn line(self) -> Seq<char> {
        match self.action {
            Actions::Add => self.add_line(),
            Actions::Remove => self.remove_line(),
        }
    }

    /// The message that removes the overlay named `identifier`.
    pub open spec fn removal(identifier: Seq<char>) -> UeConfView {
        UeConfView {
            action: Actions::Remove,
            identifier,
            x: 0,
            y: 0,
            path: Seq::empty(),
            width: None,
            height: None,
            scaler: None,
        }
    }
}

impl UeConf {
    /// A message names its overlay, and one that adds an overlay names the
    /// file of its image.
    pub open spec fn complete(&self) -> bool {
        self@.complete()
    }

    /// The line of the message.
    pub open spec fn line(&self) -> Seq<char> {
        self@.line()
    }

    /// Whether the message names what it needs.
    pub fn is_complete(&self) -> (r: bool)
        ensures
            r == self.complete(),
    {
        let named = self.identifier.as_str().unicode_len() > 0;
        match self.action {
            Actions::Add => named && self.path.as_str().unicode_len() > 0,
            Actions::Remove => named,
        }
    }

    /// The message as one line of JSON, its line break included.
    pub fn to_json(&self) -> (r: String)
        requires
            self.complete(),
        ensures
            r@ == self.line(),
    {
        match self.action {
            Actions::Add => {
                let mut out = String::from_str("{\"action\":\"add\",\"identifier\":");
                push_json_string(&mut out, self.identifier.as_str());
                out.append(",\"path\":");
                push_json_string(&mut out, self.path.as_str());
                out.append(",\"x\":");
                push_signed_decimal(&mut out, self.x);
                out.append(",\"y\":");
                push_signed_decimal(&mut out, self.y);
                match self.width {
                    Some(w) => {
                        out.append(",\"width\":");
                        push_decimal(&mut out, w as u64);
                    },
                    None => {},
                }
                match self.height {
                    Some(h) => {
                        out.append(",\"height\":");
                        push_decimal(&mut out, h as u64);
                    },
                    None => {},
                }
                match self.scaler {
                    Some(s) => {
                        out.append(",\"scaler\":\"");
                        let name = s.to_string();
                        out.append(name.as_str());
                        out.append("\"");
                    },
                    None => {},
                }
                out.append("}\n");
                out
            },
            Actions::Remove => {
                let mut out = String::from_str("{\"action\":\"remove\",\"identifier\":");
                push_json_string(&mut out, self.identifier.as_str());
                out.append("}\n");
                out
            },
        }
    }
}

impl Default for UeConf {
    /// A message that adds a yet unnamed overlay at the origin.
    fn default() -> (r: UeConf)
        ensures
            r@ == (UeConfView {
                action: Actions::Add,
                identifier: Seq::empty(),
                x: 0,
                y: 0,
                path: Seq::empty(),
                width: None,
                height: None,
                scaler: None,
            }),
    {
        UeConf {
            action: Actions::Add,
            identifier: String::new(),
            x: 0,
            y: 0,
            path: String::new(),
            width: None,
            height: None,
            scaler: None,
        }
    }
}

/// The line of a message is one line: it ends in a line break and holds no
/// other, whatever the identifier and the path of the message hold.
pub proof fn lemma_line_is_one_line(c: UeConfView)
    ensures
        c.line().len() > 0,
        c.line().last() == '\n',
        unbroken(c.line().drop_last()),
{
    reveal_strlit("{\"action\":\"add\",\"identifier\":");
    reveal_strlit(",\"path\":");
    reveal_strlit(",\"x\":");
    reveal_strlit(",\"y\":");
    reveal_strlit(",\"width\":");
    reveal_strlit(",\"height\":");
    reveal_strlit(",\"scaler\":\"");
    reveal_strlit("\"");
    reveal_strlit("}\n");
    reveal_strlit("{\"action\":\"remove\",\"identifier\":");
    reveal_strlit("crop");
    reveal_strlit("distort");
    reveal_strlit("fit_contain");
    reveal_strlit("contain");
    reveal_strlit("forced_cover");
    reveal_strlit("cover");
    lemma_json_string_is_unbroken(c.identifier);
    lemma_json_string_is_unbroken(c.path);
    lemma_signed_decimal_is_unbroken(c.x);
    lemma_signed_decimal_is_unbroken(c.y);
    match c.width {
        Some(w) => lemma_decimal_is_unbroken(w as nat),
        None => {},
    }
    match c.height {
        Some(h) => lemma_decimal_is_unbroken(h as nat),
        None => {},
    }
}

/// What the caller is to do for one message: start the compositor process
/// first where `spawn` says so, then write `line` to its input.
#[derive(Debug)]
pub struct Request {
    pub spawn: bool,
    pub line: String,
}

/// How a request ended.
#[derive(Clone, Copy, Debug, PartialEq, Eq, Structural)]
pub enum Outcome {
    /// The line was written.
    Written,
    /// The process could not be started.
    SpawnFailed,
    /// The line could not be written to the process.
    WriteFailed,
}

/// The session with the compositor process: whether the process has been
/// started. The process itself is the caller's.
#[derive(Debug)]
pub struct Ueberzug {
    pub started: bool,
}

impl Ueberzug {
    /// The state of the session after a request that ended in `outcome`: the
    /// process counts as started once something was written to it or a write
    /// to it failed, and a failed start leaves the session as it was, so that
    /// the next request starts the process again.
    pub open spec fn after(started: bool, outcome: Outcome) -> bool {
        match outcome {
            Outcome::Written => true,
            Outcome::SpawnFailed => started,
            Outcome::WriteFailed => true,
        }
    }

    /// What a request that ended in `outcome` comes to.
    pub open spec fn result_of(outcome: Outcome) -> Result<(), Error> {
        match outcome {
            Outcome::Written => Ok(()),
            Outcome::SpawnFailed => Err(Error::CompositorSpawnFailed),
            Outcome::WriteFailed => Err(Error::CompositorWriteFailed),
        }
    }

    /// A session whose process has not been started.
    pub fn new() -> (session: Ueberzug)
        ensures
            !session.started,
    {
        Ueberzug { started: false }
    }

    /// The request that sends `config`.
    pub fn draw(&self, config: &UeConf) -> (request: Request)
        requires
            config.complete(),
        ensures
            request.spawn == !self.started,
            request.line@ == config.line(),
    {
        Request { spawn: !self.started, line: config.to_json() }
    }

    /// The request that removes the overlay named `identifier`.
    pub fn clear(&self, identifier: &str) -> (request: Request)
        requires
            identifier@.len() > 0,
        ensures
            request.spawn == !self.started,
            request.line@ == UeConfView::removal(identifier@).line(),
    {
        let config = UeConf {
            action: Actions::Remove,
            identifier: String::from_str(identifier),
            x: 0,
            y: 0,
            path: String::new(),
            width: None,
            height: None,
            scaler: None,
        };
        Request { spawn: !self.started, line: config.to_json() }
    }

    /// Takes the outcome of a request.
    pub fn run(&mut self, outcome: Outcome) -> (r: Result<(), Error>)
        ensures
            final(self).started == Self::after(old(self).started, outcome),
            r == Self::result_of(outcome),
    {
        match outcome {
            Outcome::Written => {
                self.started = true;
                Ok(())
            },
            Outcome::SpawnFailed => Err(Error::CompositorSpawnFailed),
            Outcome::WriteFailed => {
                self.started = true;
                Err(Error::CompositorWriteFailed)
            },
        }
    }
}

/// The process is started at most once: once it counts as started it does so
/// after every outcome, and no request asks to start it again.
pub proof fn lemma_started_once(started: bool, outcome: Outcome)
    ensures
        started ==> Ueberzug::after(started, outcome),
        outcome != Outcome::SpawnFailed ==> Ueberzug::after(started, outcome),
{
}

} // verus!
