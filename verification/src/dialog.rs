//! Answering one message: the commands it asks for are carried out in turn,
//! each with the calls to the account service that it needs. The caller
//! makes each call and hands back what came of it.

use vstd::prelude::*;
use vstd::utf8::encode_utf8;
use crate::account::{opt_view, Request, RequestView};
use crate::command::{plan, plan_of, views, Command, CommandView};
use crate::config::text_or_empty;
use crate::number::i64_text;
use crate::model::{ListTime, SnipeAccount, WxResponse, WxSendText};
use crate::reply::{info, info_text, lemma_entries_hold_each, lines_after, listable, menu, menu_text, pending, pending_entries, pending_entry, pending_text};
use crate::text::{chars_of, contains, has_infix, has_prefix, occurs_at, utf8_longer_than};

verus! {

/// What came of a call to the account service.
#[derive(Clone, Debug, PartialEq, Eq)]
pub enum Event {
    /// The answer to a lookup; `None` where the lookup failed.
    Account(Option<SnipeAccount>),
    /// The service took the request; its JSON's `message`, where that is a string.
    Message(Option<String>),
    /// The request did not reach the service; the error's text.
    Failed(String),
    /// The service's answer, as text.
    Body(String),
    /// The service's answer read as a JSON string; `None` where it is not one.
    Decoded(Option<String>),
    /// The waiting records; `None` where the answer could not be read.
    Accounts(Option<Vec<SnipeAccount>>),
    /// A war window.
    Time(ListTime),
}

/// How far the current command has got.
#[derive(Clone, Copy, Debug, PartialEq, Eq, Structural)]
pub enum Stage {
    /// No call is out: the next command is about to start.
    Ready,
    /// The lookup of the sender's record is out.
    Looking,
    /// The command's own call is out.
    Acting,
}

/// The next move of a command: a call to make (and the stage it leaves the
/// command in), or the command's answer.
#[derive(Debug, PartialEq, Eq)]
pub enum Step {
    Ask(Request, Stage),
    Say(String),
}

/// A step, with its texts as character sequences.
pub enum StepView {
    Ask(RequestView, Stage),
    Say(Seq<char>),
}

impl View for Step {
    type V = StepView;

    open spec fn view(&self) -> StepView {
        match self {
            Step::Ask(r, s) => StepView::Ask(r@, *s),
            Step::Say(t) => StepView::Say(t@),
        }
    }
}

/// Whether `e` is a possible outcome of the call `r`: the kind of answer
/// that call gives, and, for the waiting list, records that can be listed.
pub open spec fn answers(r: RequestView, e: Event) -> bool {
    match r {
        RequestView::SearchAccount { .. } => e is Account,
        RequestView::CreateAccount { .. } => e is Message || e is Failed,
        RequestView::UpdateAccount { .. } => e is Message || e is Failed,
        RequestView::ListWaiting => match e {
            Event::Accounts(Some(v)) => listable(v@),
            Event::Accounts(None) => true,
            _ => false,
        },
        RequestView::ApproveAccount { .. } => e is Body || e is Failed,
        RequestView::GetTime { .. } => e is Time,
        RequestView::SetTime { .. } => e matches Event::Decoded(Some(_)),
        RequestView::ClanInfo { .. } => e is Decoded,
        RequestView::WarLog { .. } => e is Decoded,
        RequestView::ListTimes => e is Body,
        RequestView::ClansInfo { .. } => e is Body,
    }
}

/// A tag is too short where its UTF-8 text has at most three bytes.
pub open spec fn short_tag(tag: Seq<char>) -> bool {
    encode_utf8(tag).len() <= 3
}

/// How a command starts, for the sender `from`.
pub open spec fn begin_of(c: CommandView, from: Seq<char>) -> StepView {
    let lookup = StepView::Ask(
        RequestView::SearchAccount { name: from, status: 1 },
        Stage::Looking,
    );
    match c {
        CommandView::Join { tag } => if short_tag(tag) {
            StepView::Say("标签错误"@)
        } else {
            StepView::Ask(RequestView::CreateAccount { name: from, tag }, Stage::Acting)
        },
        CommandView::Update { tag } => if short_tag(tag) {
            StepView::Say("标签错误"@)
        } else {
            StepView::Ask(RequestView::UpdateAccount { name: from, tag }, Stage::Acting)
        },
        CommandView::Approve { id: None } => StepView::Say("无对象"@),
        CommandView::ClanInfo { tag } => StepView::Ask(RequestView::ClanInfo { tag }, Stage::Acting),
        CommandView::WarLog { tag } => StepView::Ask(RequestView::WarLog { tag }, Stage::Acting),
        _ => lookup,
    }
}

/// How a command goes on once the sender's record `a` is known. Approving
/// a record and setting a war window are for administrators (kind 1);
/// showing a war window is for administrators and members (kind 2).
pub open spec fn after_lookup_of(c: CommandView, a: SnipeAccount) -> StepView {
    match c {
        CommandView::Menu => StepView::Say(menu_text(a.kind)),
        CommandView::Info => StepView::Say(info_text(a)),
        CommandView::Pending => if a.kind == Some(1i64) {
            StepView::Ask(RequestView::ListWaiting, Stage::Acting)
        } else {
            StepView::Say(pending_text(Seq::empty()))
        },
        CommandView::Approve { id: Some(id) } => if a.kind == Some(1i64) {
            StepView::Ask(RequestView::ApproveAccount { id }, Stage::Acting)
        } else {
            StepView::Say("无权限"@)
        },
        CommandView::ShowTime { time_id } => if a.kind == Some(1i64) || a.kind == Some(2i64) {
            StepView::Ask(RequestView::GetTime { time_id }, Stage::Acting)
        } else {
            StepView::Say("未加盟"@)
        },
        CommandView::SetTime { time_id, time } => if a.kind == Some(1i64) {
            StepView::Ask(RequestView::SetTime { time_id, time }, Stage::Acting)
        } else {
            StepView::Say("无权限"@)
        },
        _ => StepView::Say(Seq::empty()),
    }
}

/// The record that a lookup gave: the empty record where it failed.
pub open spec fn account_of(e: Event) -> SnipeAccount {
    match e {
        Event::Account(Some(a)) => a,
        _ => SnipeAccount {
            id: None,
            name: None,
            tag: None,
            clan_name: None,
            kind: None,
            status: None,
            create_time: None,
            update_time: None,
        },
    }
}

/// A command's answer, from what came of its own call.
pub open spec fn finish_of(c: CommandView, e: Event) -> Seq<char> {
    match c {
        CommandView::Join { .. } => match e {
            Event::Message(Some(m)) => m@,
            Event::Message(None) => "警告，请检查是否重复提交"@,
            _ => "失败，请检查是否重复提交"@,
        },
        CommandView::Update { .. } => match e {
            Event::Message(Some(m)) => m@,
            Event::Message(None) => "警告，没有变动"@,
            _ => "失败，系统错误"@,
        },
        CommandView::Pending => match e {
            Event::Accounts(Some(v)) => pending_text(v@),
            _ => pending_text(Seq::empty()),
        },
        CommandView::Approve { .. } => match e {
            Event::Body(b) => if has_infix(b@, "1"@) {
                "修改成功"@
            } else {
                "无变化"@
            },
            Event::Failed(err) => err@,
            _ => "无变化"@,
        },
        CommandView::ShowTime { .. } => match e {
            Event::Time(t) => t.union@ + ": "@ + t.day@ + " "@ + t.time@,
            _ => Seq::empty(),
        },
        CommandView::SetTime { .. } => match e {
            Event::Decoded(Some(s)) => s@,
            _ => Seq::empty(),
        },
        CommandView::ClanInfo { .. } => match e {
            Event::Decoded(Some(s)) => s@,
            _ => Seq::empty(),
        },
        CommandView::WarLog { .. } => match e {
            Event::Decoded(Some(s)) => s@,
            _ => Seq::empty(),
        },
        _ => Seq::empty(),
    }
}

fn lookup_request(from: &String) -> (s: Step)
    ensures
        s@ == StepView::Ask(RequestView::SearchAccount { name: from@, status: 1 }, Stage::Looking),
{
    Step::Ask(Request::SearchAccount { name: from.clone(), status: 1 }, Stage::Looking)
}

/// How the command `c` starts, for the sender `from`.
pub fn begin(c: &Command, from: &String) -> (s: Step)
    ensures
        s@ == begin_of(c@, from@),
{
    match c {
        Command::Join { tag } => {
            if !utf8_longer_than(&chars_of(tag.as_str()), 3) {
                Step::Say("标签错误".to_owned())
            } else {
                Step::Ask(Request::CreateAccount { name: from.clone(), tag: tag.clone() }, Stage::Acting)
            }
        },
        Command::Update { tag } => {
            if !utf8_longer_than(&chars_of(tag.as_str()), 3) {
                Step::Say("标签错误".to_owned())
            } else {
                Step::Ask(Request::UpdateAccount { name: from.clone(), tag: tag.clone() }, Stage::Acting)
            }
        },
        Command::Approve { id: None } => Step::Say("无对象".to_owned()),
        Command::ClanInfo { tag } => Step::Ask(Request::ClanInfo { tag: tag.clone() }, Stage::Acting),
        Command::WarLog { tag } => Step::Ask(Request::WarLog { tag: tag.clone() }, Stage::Acting),
        _ => lookup_request(from),
    }
}

/// How the command `c` goes on once the sender's record `a` is known.
pub fn after_lookup(c: &Command, a: &SnipeAccount) -> (s: Step)
    ensures
        s@ == after_lookup_of(c@, *a),
{
    let admin = a.kind == Some(1i64);
    match c {
        Command::Menu => Step::Say(menu(a.kind)),
        Command::Info => Step::Say(info(a)),
        Command::Pending => {
            if admin {
                Step::Ask(Request::ListWaiting, Stage::Acting)
            } else {
                let none: Vec<SnipeAccount> = Vec::new();
                assert(none@ =~= Seq::<SnipeAccount>::empty());
                Step::Say(pending(&none))
            }
        },
        Command::Approve { id: Some(id) } => {
            if admin {
                Step::Ask(Request::ApproveAccount { id: *id }, Stage::Acting)
            } else {
                Step::Say("无权限".to_owned())
            }
        },
        Command::ShowTime { time_id } => {
            if admin || a.kind == Some(2i64) {
                Step::Ask(Request::GetTime { time_id: *time_id }, Stage::Acting)
            } else {
                Step::Say("未加盟".to_owned())
            }
        },
        Command::SetTime { time_id, time } => {
            if admin {
                Step::Ask(Request::SetTime { time_id: *time_id, time: time.clone() }, Stage::Acting)
            } else {
                Step::Say("无权限".to_owned())
            }
        },
        _ => Step::Say(String::new()),
    }
}

/// The answer of the command `c`, from what came of its own call.
pub fn finish(c: &Command, e: &Event) -> (s: String)
    requires
        e matches Event::Accounts(Some(v)) ==> listable(v@),
    ensures
        s@ == finish_of(c@, *e),
{
    match c {
        Command::Join { .. } => match e {
            Event::Message(Some(m)) => m.clone(),
            Event::Message(None) => "警告，请检查是否重复提交".to_owned(),
            _ => "失败，请检查是否重复提交".to_owned(),
        },
        Command::Update { .. } => match e {
            Event::Message(Some(m)) => m.clone(),
            Event::Message(None) => "警告，没有变动".to_owned(),
            _ => "失败，系统错误".to_owned(),
        },
        Command::Pending => match e {
            Event::Accounts(Some(v)) => pending(v),
            _ => {
                let none: Vec<SnipeAccount> = Vec::new();
                assert(none@ =~= Seq::<SnipeAccount>::empty());
                pending(&none)
            },
        },
        Command::Approve { .. } => match e {
            Event::Body(b) => {
                if contains(&chars_of(b.as_str()), &chars_of("1")) {
                    "修改成功".to_owned()
                } else {
                    "无变化".to_owned()
                }
            },
            Event::Failed(err) => err.clone(),
            _ => "无变化".to_owned(),
        },
        Command::ShowTime { .. } => match e {
            Event::Time(t) => t.format_time(),
            _ => String::new(),
        },
        Command::SetTime { .. } | Command::ClanInfo { .. } | Command::WarLog { .. } => match e {
            Event::Decoded(Some(s)) => s.clone(),
            _ => String::new(),
        },
        _ => String::new(),
    }
}

/// Where a dialog stands after a move: the command it is at, that
/// command's stage, the answer so far, and the call it waits for.
pub struct Progress {
    pub next: int,
    pub stage: Stage,
    pub content: Option<Seq<char>>,
    pub call: Option<RequestView>,
}

/// Starting at command `i`, the commands that answer at once are answered
/// in turn, until one needs a call or none is left.
pub open spec fn settle(
    from: Seq<char>,
    cmds: Seq<CommandView>,
    i: int,
    content: Option<Seq<char>>,
) -> Progress
    decreases cmds.len() - i,
{
    if i < 0 || i >= cmds.len() {
        Progress { next: i, stage: Stage::Ready, content, call: None }
    } else {
        match begin_of(cmds[i], from) {
            StepView::Ask(r, st) => Progress { next: i, stage: st, content, call: Some(r) },
            StepView::Say(t) => settle(from, cmds, i + 1, Some(t)),
        }
    }
}

/// The move a dialog makes at command `i` in stage `stage`, given what came
/// of the call it waited for.
pub open spec fn resume(
    from: Seq<char>,
    cmds: Seq<CommandView>,
    i: int,
    stage: Stage,
    content: Option<Seq<char>>,
    event: Option<Event>,
) -> Progress {
    match stage {
        Stage::Ready => settle(from, cmds, i, content),
        Stage::Looking => match after_lookup_of(cmds[i], account_of(event->0)) {
            StepView::Ask(r, st) => Progress { next: i, stage: st, content, call: Some(r) },
            StepView::Say(t) => settle(from, cmds, i + 1, Some(t)),
        },
        Stage::Acting => settle(from, cmds, i + 1, Some(finish_of(cmds[i], event->0))),
    }
}

/// The answer given to a message that asks for no command.
pub open spec fn default_answer() -> Seq<char> {
    "啊～不要。。。"@
}

/// The name under which the sender of `msg` is looked up: `none` where the
/// message names no sender.
pub open spec fn sender_of(msg: WxResponse) -> Seq<char> {
    match msg.from_user_name {
        Some(n) => n@,
        None => "none"@,
    }
}

/// What the dialog asks of its caller.
#[derive(Debug, PartialEq, Eq)]
pub enum Action {
    /// Make this call and hand back what came of it.
    Call(Request),
    /// Every command is answered: the reply is ready.
    Done,
}

/// The answering of one message.
pub struct Dialog {
    from: String,
    commands: Vec<Command>,
    next: usize,
    stage: Stage,
    out: Ghost<Option<RequestView>>,
    reply: WxSendText,
}

fn copy_text(o: &Option<String>) -> (c: Option<String>)
    ensures
        c == *o,
{
    match o {
        Some(t) => Some(t.clone()),
        None => None,
    }
}

impl Dialog {
    /// The name under which the sender is looked up.
    pub closed spec fn sender(&self) -> Seq<char> {
        self.from@
    }

    /// The commands of the message.
    pub closed spec fn commands(&self) -> Seq<CommandView> {
        views(self.commands@)
    }

    /// The index of the current command.
    pub closed spec fn position(&self) -> int {
        self.next as int
    }

    /// The stage of the current command.
    pub closed spec fn stage(&self) -> Stage {
        self.stage
    }

    /// The call that the dialog waits for.
    pub closed spec fn waiting_for(&self) -> Option<RequestView> {
        self.out@
    }

    /// The reply as it stands.
    pub closed spec fn reply(&self) -> WxSendText {
        self.reply
    }

    /// The dialog's parts agree with one another.
    pub closed spec fn wf(&self) -> bool {
        &&& self.next <= self.commands@.len()
        &&& (self.stage != Stage::Ready) == (self.out@ is Some)
        &&& self.stage != Stage::Ready ==> self.next < self.commands@.len()
    }

    /// Begins answering `msg`. A message with text gets the default answer,
    /// addressed back to its sender, until a command gives another; its
    /// commands are those of `plan_of`. A message without text gets an empty
    /// reply and no command.
    pub fn start(msg: &WxResponse) -> (d: Dialog)
        ensures
            d.wf(),
            d.sender() == sender_of(*msg),
            d.position() == 0,
            d.stage() == Stage::Ready,
            match msg.content {
                Some(text) => {
                    &&& d.commands() == plan_of(text@)
                    &&& d.reply().to_user_name == msg.from_user_name
                    &&& d.reply().from_user_name == msg.to_user_name
                    &&& d.reply().create_time == msg.create_time
                    &&& opt_view(d.reply().msg_type) == Some("text"@)
                    &&& opt_view(d.reply().content) == Some(default_answer())
                },
                None => {
                    &&& d.commands().len() == 0
                    &&& d.reply().to_user_name is None
                    &&& d.reply().from_user_name is None
                    &&& d.reply().create_time is None
                    &&& d.reply().msg_type is None
                    &&& d.reply().content is None
                },
            },
    {
        let from = match &msg.from_user_name {
            Some(n) => n.clone(),
            None => "none".to_owned(),
        };
        match &msg.content {
            Some(text) => {
                let reply = WxSendText {
                    to_user_name: copy_text(&msg.from_user_name),
                    from_user_name: copy_text(&msg.to_user_name),
                    create_time: msg.create_time,
                    msg_type: Some("text".to_owned()),
                    content: Some("啊～不要。。。".to_owned()),
                };
                Dialog {
                    from,
                    commands: plan(text.as_str()),
                    next: 0,
                    stage: Stage::Ready,
                    out: Ghost(None),
                    reply,
                }
            },
            None => {
                let none: Vec<Command> = Vec::new();
                assert(views(none@) =~= Seq::<CommandView>::empty());
                Dialog {
                    from,
                    commands: none,
                    next: 0,
                    stage: Stage::Ready,
                    out: Ghost(None),
                    reply: WxSendText::new(),
                }
            },
        }
    }

    /// Makes the dialog's next move. In stage `Ready` it takes no event;
    /// otherwise it takes what came of the call it waits for. It answers the
    /// commands in turn until one needs a call, which it returns, or none is
    /// left, when it returns `Done`. Only the reply's content changes.
    pub fn advance(&mut self, event: Option<Event>) -> (a: Action)
        requires
            old(self).wf(),
            (old(self).stage() == Stage::Ready) == (event is None),
            old(self).stage() != Stage::Ready ==> answers(
                old(self).waiting_for()->0,
                event->0,
            ),
        ensures
            final(self).wf(),
            final(self).sender() == old(self).sender(),
            final(self).commands() == old(self).commands(),
            final(self).reply().to_user_name == old(self).reply().to_user_name,
            final(self).reply().from_user_name == old(self).reply().from_user_name,
            final(self).reply().create_time == old(self).reply().create_time,
            final(self).reply().msg_type == old(self).reply().msg_type,
            ({
                let p = resume(
                    old(self).sender(),
                    old(self).commands(),
                    old(self).position(),
                    old(self).stage(),
                    opt_view(old(self).reply().content),
                    event,
                );
                &&& final(self).position() == p.next
                &&& final(self).stage() == p.stage
                &&& opt_view(final(self).reply().content) == p.content
                &&& final(self).waiting_for() == p.call
                &&& match a {
                    Action::Call(r) => p.call == Some(r@),
                    Action::Done => p.call is None,
                }
            }),
    {
        let ghost from = self.from@;
        let ghost cmds = views(self.commands@);
        let n = self.commands.len();
        let ghost target = resume(from, cmds, self.next as int, self.stage, opt_view(self.reply.content), event);
        if self.stage != Stage::Ready {
            assert(cmds[self.next as int] == self.commands@[self.next as int]@);
        }
        match self.stage {
            Stage::Ready => {},
            Stage::Looking => {
                let acc = match event {
                    Some(Event::Account(Some(a))) => a,
                    _ => SnipeAccount::default(),
                };
                let step = after_lookup(&self.commands[self.next], &acc);
                match step {
                    Step::Ask(r, st) => {
                        self.stage = st;
                        self.out = Ghost(Some(r@));
                        return Action::Call(r);
                    },
                    Step::Say(t) => {
                        self.reply.content = Some(t);
                        self.next = self.next + 1;
                        self.stage = Stage::Ready;
                        self.out = Ghost(None);
                    },
                }
            },
            Stage::Acting => {
                let e = match event {
                    Some(e) => e,
                    None => Event::Decoded(None),
                };
                let t = finish(&self.commands[self.next], &e);
                self.reply.content = Some(t);
                self.next = self.next + 1;
                self.stage = Stage::Ready;
                self.out = Ghost(None);
            },
        }
        while self.next < self.commands.len()
            invariant
                self.next <= self.commands@.len(),
                self.stage == Stage::Ready,
                self.out@ is None,
                views(self.commands@) == cmds,
                self.from@ == from,
                self.from == old(self).from,
                self.commands == old(self).commands,
                settle(from, cmds, self.next as int, opt_view(self.reply.content)) == target,
                target == resume(
                    old(self).from@,
                    views(old(self).commands@),
                    old(self).next as int,
                    old(self).stage,
                    opt_view(old(self).reply.content),
                    event,
                ),
                self.reply.to_user_name == old(self).reply.to_user_name,
                self.reply.from_user_name == old(self).reply.from_user_name,
                self.reply.create_time == old(self).reply.create_time,
                self.reply.msg_type == old(self).reply.msg_type,
            decreases self.commands@.len() - self.next,
        {
            assert(cmds[self.next as int] == self.commands@[self.next as int]@);
            let step = begin(&self.commands[self.next], &self.from);
            match step {
                Step::Ask(r, st) => {
                    assert(begin_of(cmds[self.next as int], from) == StepView::Ask(r@, st));
                    assert(settle(from, cmds, self.next as int, opt_view(self.reply.content)) == Progress {
                        next: self.next as int,
                        stage: st,
                        content: opt_view(self.reply.content),
                        call: Some(r@),
                    });
                    self.stage = st;
                    self.out = Ghost(Some(r@));
                    return Action::Call(r);
                },
                Step::Say(t) => {
                    self.reply.content = Some(t);
                    self.next = self.next + 1;
                },
            }
        }
        Action::Done
    }

    /// The reply, once every command is answered.
    pub fn into_reply(self) -> (r: WxSendText)
        ensures
            r == self.reply(),
    {
        self.reply
    }
}

/// The name under which the sender of `msg` is looked up, and under which
/// the agent keeps the sender's conversation.
pub fn sender_name(msg: &WxResponse) -> (n: String)
    ensures
        n@ == sender_of(*msg),
{
    match &msg.from_user_name {
        Some(n) => n.clone(),
        None => "none".to_owned(),
    }
}

/// The reply that carries the chat agent's answer to `msg`: addressed back
/// to the sender, with the answer (empty where the agent failed). A message
/// without text gets an empty reply.
pub fn agent_reply(msg: &WxResponse, answer: Option<String>) -> (t: WxSendText)
    ensures
        match msg.content {
            Some(_) => {
                &&& t.to_user_name == msg.from_user_name
                &&& t.from_user_name == msg.to_user_name
                &&& t.create_time == msg.create_time
                &&& opt_view(t.msg_type) == Some("text"@)
                &&& opt_view(t.content) == Some(text_or_empty(answer))
            },
            None => {
                &&& t.to_user_name is None
                &&& t.from_user_name is None
                &&& t.create_time is None
                &&& t.msg_type is None
                &&& t.content is None
            },
        },
{
    match &msg.content {
        Some(_) => WxSendText {
            to_user_name: copy_text(&msg.from_user_name),
            from_user_name: copy_text(&msg.to_user_name),
            create_time: msg.create_time,
            msg_type: Some("text".to_owned()),
            content: Some(
                match answer {
                    Some(a) => a,
                    None => String::new(),
                },
            ),
        },
        None => WxSendText::new(),
    }
}

/// Whether `r` is a call that only an administrator's command makes.
pub open spec fn privileged(r: RequestView) -> bool {
    r is ListWaiting || r is ApproveAccount || r is SetTime
}

proof fn lemma_settle_unprivileged(from: Seq<char>, cmds: Seq<CommandView>, i: int, c: Option<Seq<char>>)
    ensures
        settle(from, cmds, i, c).call is Some ==> !privileged(settle(from, cmds, i, c).call->0)
            && !(settle(from, cmds, i, c).call->0 is GetTime),
    decreases cmds.len() - i,
{
    if 0 <= i < cmds.len() {
        match begin_of(cmds[i], from) {
            StepView::Say(t) => lemma_settle_unprivileged(from, cmds, i + 1, Some(t)),
            _ => {},
        }
    }
}

/// Approving a record, setting a war window and listing the waiting records
/// are asked for only right after the sender's record was looked up and
/// found to be an administrator's; a war window is fetched only for an
/// administrator or a member. An administrator's command that a
/// non-administrator sends is answered `无权限` (approving, setting a time)
/// without any call.
pub proof fn lemma_privileged_calls(
    from: Seq<char>,
    cmds: Seq<CommandView>,
    i: int,
    stage: Stage,
    content: Option<Seq<char>>,
    event: Option<Event>,
)
    ensures
        ({
            let p = resume(from, cmds, i, stage, content, event);
            &&& p.call is Some && privileged(p.call->0) ==> stage == Stage::Looking && account_of(
                event->0,
            ).kind == Some(1i64)
            &&& p.call is Some && p.call->0 is GetTime ==> stage == Stage::Looking && (account_of(
                event->0,
            ).kind == Some(1i64) || account_of(event->0).kind == Some(2i64))
        }),
        stage == Stage::Looking && 0 <= i < cmds.len() && account_of(event->0).kind != Some(1i64)
            && (cmds[i] is SetTime || cmds[i] matches CommandView::Approve { id: Some(_) })
            ==> after_lookup_of(cmds[i], account_of(event->0)) == StepView::Say("无权限"@),
{
    match stage {
        Stage::Ready => lemma_settle_unprivileged(from, cmds, i, content),
        Stage::Looking => match after_lookup_of(cmds[i], account_of(event->0)) {
            StepView::Say(t) => lemma_settle_unprivileged(from, cmds, i + 1, Some(t)),
            _ => {},
        },
        Stage::Acting => lemma_settle_unprivileged(from, cmds, i + 1, Some(finish_of(cmds[i], event->0))),
    }
}

/// When a dialog has answered its last command without a further call, the
/// reply carries that command's answer: each command's answer replaces the
/// one before it.
pub proof fn lemma_last_answer_wins(from: Seq<char>, cmds: Seq<CommandView>, i: int, c: Option<Seq<char>>)
    requires
        0 <= i < cmds.len(),
        settle(from, cmds, i, c).call is None,
    ensures
        begin_of(cmds.last(), from) is Say,
        settle(from, cmds, i, c).content == Some(begin_of(cmds.last(), from)->Say_0),
    decreases cmds.len() - i,
{
    match begin_of(cmds[i], from) {
        StepView::Say(t) => {
            if i + 1 < cmds.len() {
                lemma_last_answer_wins(from, cmds, i + 1, Some(t));
            } else {
                assert(cmds.last() == cmds[i]);
                assert(settle(from, cmds, i + 1, Some(t)).content == Some(t));
            }
        },
        _ => {},
    }
}

/// A message that asks for no command is answered at once, with the
/// default answer and no call.
pub proof fn lemma_no_command(from: Seq<char>, m: Seq<char>)
    requires
        plan_of(m).len() == 0,
    ensures
        settle(from, plan_of(m), 0, Some(default_answer())) == (Progress {
            next: 0,
            stage: Stage::Ready,
            content: Some(default_answer()),
            call: None,
        }),
{
}

/// The member named in a call: the looked-up, joining or updating member.
pub open spec fn named_member(r: RequestView) -> Option<Seq<char>> {
    match r {
        RequestView::SearchAccount { name, .. } => Some(name),
        RequestView::CreateAccount { name, .. } => Some(name),
        RequestView::UpdateAccount { name, .. } => Some(name),
        _ => None,
    }
}

proof fn lemma_settle_names_sender(from: Seq<char>, cmds: Seq<CommandView>, i: int, c: Option<Seq<char>>)
    ensures
        settle(from, cmds, i, c).call is Some ==> match named_member(settle(from, cmds, i, c).call->0) {
            Some(n) => n == from,
            None => true,
        },
    decreases cmds.len() - i,
{
    if 0 <= i < cmds.len() {
        match begin_of(cmds[i], from) {
            StepView::Say(t) => lemma_settle_names_sender(from, cmds, i + 1, Some(t)),
            _ => {},
        }
    }
}

/// Every call that names a member (a lookup, a request to join, a change
/// of tag) names the sender of the message: nobody acts under another's name.
pub proof fn lemma_calls_name_sender(
    from: Seq<char>,
    cmds: Seq<CommandView>,
    i: int,
    stage: Stage,
    content: Option<Seq<char>>,
    event: Option<Event>,
)
    ensures
        ({
            let p = resume(from, cmds, i, stage, content, event);
            p.call is Some ==> match named_member(p.call->0) {
                Some(n) => n == from,
                None => true,
            }
        }),
{
    match stage {
        Stage::Ready => lemma_settle_names_sender(from, cmds, i, content),
        Stage::Looking => match after_lookup_of(cmds[i], account_of(event->0)) {
            StepView::Say(t) => lemma_settle_names_sender(from, cmds, i + 1, Some(t)),
            _ => {},
        },
        Stage::Acting => lemma_settle_names_sender(from, cmds, i + 1, Some(finish_of(cmds[i], event->0))),
    }
}

/// Answering `待审核` for an administrator lists every waiting record: the
/// answer begins with `【待审核】`, and for each record it holds a block with
/// the record's id, tag, clan and name.
pub proof fn lemma_waiting_list_complete(v: Vec<SnipeAccount>, i: int)
    requires
        0 <= i < v@.len(),
    ensures
        has_prefix(finish_of(CommandView::Pending, Event::Accounts(Some(v))), "【待审核】"@),
        has_infix(
            finish_of(CommandView::Pending, Event::Accounts(Some(v))),
            "\n"@ + "---------------"@ + "\n"@ + "【"@ + i64_text(v@[i].id->0) + "】 | "@
                + text_or_empty(v@[i].tag) + "\n"@ + text_or_empty(v@[i].clan_name) + "\n"@
                + text_or_empty(v@[i].name) + "\r\n"@,
        ),
{
    let ans = finish_of(CommandView::Pending, Event::Accounts(Some(v)));
    let head = "【待审核】"@;
    let body = pending_entries(v@);
    assert(ans == head + body);
    assert(ans.subrange(0, head.len() as int) =~= head);
    lemma_entries_hold_each(v@, i);
    let e = pending_entry(v@[i]);
    let k = choose|k: int| occurs_at(body, e, k);
    assert(ans.subrange(head.len() + k, head.len() + k + e.len()) =~= body.subrange(k, k + e.len()));
    assert(occurs_at(ans, e, head.len() + k));
}

/// Answering `信息` shows the looked-up record: its name, tag and clan, each
/// on its labelled line.
pub proof fn lemma_info_shows_record(a: SnipeAccount)
    ensures
        after_lookup_of(CommandView::Info, a) == StepView::Say(
            "【信息】"@ + "\n"@ + "微信: "@ + text_or_empty(a.name) + "\n"@ + "标签: "@
                + text_or_empty(a.tag) + "\n"@ + "部落: "@ + text_or_empty(a.clan_name),
        ),
{
}

/// Showing a war window: an administrator or a member (kind 1 or 2) gets the
/// window fetched, anyone else is told `未加盟` without a call.
pub proof fn lemma_show_time_for_members(time_id: u64, a: SnipeAccount)
    ensures
        (a.kind == Some(1i64) || a.kind == Some(2i64)) ==> after_lookup_of(
            CommandView::ShowTime { time_id },
            a,
        ) == StepView::Ask(RequestView::GetTime { time_id }, Stage::Acting),
        !(a.kind == Some(1i64) || a.kind == Some(2i64)) ==> after_lookup_of(
            CommandView::ShowTime { time_id },
            a,
        ) == StepView::Say("未加盟"@),
{
}

/// A clan's summary, a war log and a set war window are answered with the
/// service's text itself; where the service's answer is no JSON string, the
/// clan queries answer with the empty text.
pub proof fn lemma_service_text_passed_on(tag: Seq<char>, time_id: u64, time: Seq<char>, s: String)
    ensures
        finish_of(CommandView::WarLog { tag }, Event::Decoded(Some(s))) == s@,
        finish_of(CommandView::ClanInfo { tag }, Event::Decoded(Some(s))) == s@,
        finish_of(CommandView::SetTime { time_id, time }, Event::Decoded(Some(s))) == s@,
        finish_of(CommandView::WarLog { tag }, Event::Decoded(None)) == Seq::<char>::empty(),
        finish_of(CommandView::ClanInfo { tag }, Event::Decoded(None)) == Seq::<char>::empty(),
{
}

proof fn lemma_lines_base()
    ensures
        lines_after(seq!["加盟#标签"@, "fwa/gfl"@, "查部落#标签"@, "对战日志#标签"@]) == "\n"@ + "加盟#标签"@
            + "\n"@ + "fwa/gfl"@ + "\n"@ + "查部落#标签"@ + "\n"@ + "对战日志#标签"@,
{
    reveal_with_fuel(lines_after, 5);
    let b = seq!["加盟#标签"@, "fwa/gfl"@, "查部落#标签"@, "对战日志#标签"@];
    assert(b.drop_last() =~= seq!["加盟#标签"@, "fwa/gfl"@, "查部落#标签"@]);
    assert(b.drop_last().drop_last() =~= seq!["加盟#标签"@, "fwa/gfl"@]);
    assert(b.drop_last().drop_last().drop_last() =~= seq!["加盟#标签"@]);
    assert(b.drop_last().drop_last().drop_last().drop_last() =~= Seq::<Seq<char>>::empty());
    assert(lines_after(b) =~= "\n"@ + "加盟#标签"@ + "\n"@ + "fwa/gfl"@ + "\n"@ + "查部落#标签"@ + "\n"@
        + "对战日志#标签"@);
}

proof fn lemma_lines_push(items: Seq<Seq<char>>, x: Seq<char>)
    ensures
        lines_after(items.push(x)) == lines_after(items) + "\n"@ + x,
{
    assert(items.push(x).drop_last() =~= items);
}

/// The text of the four commands open to everyone.
pub open spec fn everyone_lines() -> Seq<char> {
    "【指令】"@ + "\n"@ + "加盟#标签"@ + "\n"@ + "fwa/gfl"@ + "\n"@ + "查部落#标签"@ + "\n"@ + "对战日志#标签"@
}

/// The menu lists, one per line after `【指令】`, the commands open to the
/// sender's role: four for everyone, then for an administrator (kind 1)
/// `更新#标签`, `信息`, `待审核`, `审核#标签`, `fwa/gfl#新时间`, and for a
/// member (kind 2) `更新#标签`, `信息`, `fwa`.
pub proof fn lemma_menu_by_role(a: SnipeAccount)
    ensures
        a.kind == Some(1i64) ==> after_lookup_of(CommandView::Menu, a) == StepView::Say(
            everyone_lines() + "\n"@ + "更新#标签"@ + "\n"@ + "信息"@ + "\n"@ + "待审核"@ + "\n"@
                + "审核#标签"@ + "\n"@ + "fwa/gfl#新时间"@,
        ),
        a.kind == Some(2i64) ==> after_lookup_of(CommandView::Menu, a) == StepView::Say(
            everyone_lines() + "\n"@ + "更新#标签"@ + "\n"@ + "信息"@ + "\n"@ + "fwa"@,
        ),
        a.kind != Some(1i64) && a.kind != Some(2i64) ==> after_lookup_of(CommandView::Menu, a)
            == StepView::Say(everyone_lines()),
{
    let b = seq!["加盟#标签"@, "fwa/gfl"@, "查部落#标签"@, "对战日志#标签"@];
    lemma_lines_base();
    let head = "【指令】"@;
    assert(head + lines_after(b) =~= everyone_lines());
    if a.kind == Some(1i64) {
        let m = b + seq!["更新#标签"@, "信息"@, "待审核"@, "审核#标签"@, "fwa/gfl#新时间"@];
        let m1 = b.push("更新#标签"@);
        let m2 = m1.push("信息"@);
        let m3 = m2.push("待审核"@);
        let m4 = m3.push("审核#标签"@);
        let m5 = m4.push("fwa/gfl#新时间"@);
        assert(m =~= m5);
        lemma_lines_push(b, "更新#标签"@);
        lemma_lines_push(m1, "信息"@);
        lemma_lines_push(m2, "待审核"@);
        lemma_lines_push(m3, "审核#标签"@);
        lemma_lines_push(m4, "fwa/gfl#新时间"@);
        assert(head + lines_after(m5) =~= everyone_lines() + "\n"@ + "更新#标签"@ + "\n"@ + "信息"@
            + "\n"@ + "待审核"@ + "\n"@ + "审核#标签"@ + "\n"@ + "fwa/gfl#新时间"@);
    } else if a.kind == Some(2i64) {
        let m = b + seq!["更新#标签"@, "信息"@, "fwa"@];
        let m1 = b.push("更新#标签"@);
        let m2 = m1.push("信息"@);
        let m3 = m2.push("fwa"@);
        assert(m =~= m3);
        lemma_lines_push(b, "更新#标签"@);
        lemma_lines_push(m1, "信息"@);
        lemma_lines_push(m2, "fwa"@);
        assert(head + lines_after(m3) =~= everyone_lines() + "\n"@ + "更新#标签"@ + "\n"@ + "信息"@
            + "\n"@ + "fwa"@);
    }
}

} // verus!
