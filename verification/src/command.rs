//! Reading the commands in a member's message.

use vstd::prelude::*;
use crate::number::{i64_text, lemma_i64_text_chars, lemma_i64_text_round_trip, parse_i64, parse_i64_spec};
use crate::text::{
    char_pos, lemma_char_pos, occurs_at, chars_of, contains, field_one, field_two, first_field, has_infix, has_prefix, replace_char,
    same_text, second_field, starts_with, swap_char, text_of,
};

verus! {

/// One command that a message asks for.
#[derive(Clone, Debug, PartialEq, Eq)]
pub enum Command {
    /// `指令`: list the commands open to the sender.
    Menu,
    /// `加盟#tag`: ask to join the alliance with a clan tag.
    Join { tag: String },
    /// `更新#tag`: change one's tag.
    Update { tag: String },
    /// `信息`: show one's record.
    Info,
    /// `待审核`: list the records that wait for approval.
    Pending,
    /// `审核#id`: approve a record (`None` where `id` is not a number).
    Approve { id: Option<i64> },
    /// `fwa`, `fwl`, `gfl`: show that alliance's war window.
    ShowTime { time_id: u64 },
    /// `fwa#time` (and `fwl#`, `gfl#`): set that alliance's war window.
    SetTime { time_id: u64, time: String },
    /// `查部落#tag`: show a clan's summary.
    ClanInfo { tag: String },
    /// `对战日志#tag`: show a clan's war log.
    WarLog { tag: String },
}

/// A command, with its texts as character sequences.
pub enum CommandView {
    Menu,
    Join { tag: Seq<char> },
    Update { tag: Seq<char> },
    Info,
    Pending,
    Approve { id: Option<i64> },
    ShowTime { time_id: u64 },
    SetTime { time_id: u64, time: Seq<char> },
    ClanInfo { tag: Seq<char> },
    WarLog { tag: Seq<char> },
}

impl View for Command {
    type V = CommandView;

    open spec fn view(&self) -> CommandView {
        match self {
            Command::Menu => CommandView::Menu,
            Command::Join { tag } => CommandView::Join { tag: tag@ },
            Command::Update { tag } => CommandView::Update { tag: tag@ },
            Command::Info => CommandView::Info,
            Command::Pending => CommandView::Pending,
            Command::Approve { id } => CommandView::Approve { id: *id },
            Command::ShowTime { time_id } => CommandView::ShowTime { time_id: *time_id },
            Command::SetTime { time_id, time } => CommandView::SetTime {
                time_id: *time_id,
                time: time@,
            },
            Command::ClanInfo { tag } => CommandView::ClanInfo { tag: tag@ },
            Command::WarLog { tag } => CommandView::WarLog { tag: tag@ },
        }
    }
}

/// The views of a sequence of commands.
pub open spec fn views(cs: Seq<Command>) -> Seq<CommandView> {
    cs.map_values(|c: Command| c@)
}

/// `c` alone where `b` holds, nothing otherwise.
pub open spec fn when(b: bool, c: CommandView) -> Seq<CommandView> {
    if b {
        seq![c]
    } else {
        Seq::empty()
    }
}

/// The war window that an alliance's name stands for: `fwa` 81, `fwl` 82,
/// `gfl` 83.
pub open spec fn time_id_of(s: Seq<char>) -> u64 {
    if s == "fwa"@ {
        81
    } else if s == "fwl"@ {
        82
    } else if s == "gfl"@ {
        83
    } else {
        0
    }
}

/// The alliance names whose war window a message can show.
pub open spec fn names_alliance(m: Seq<char>) -> bool {
    m == "fwa"@ || m == "fwl"@ || m == "gfl"@
}

/// A message that sets an alliance's war window.
pub open spec fn sets_alliance_time(m: Seq<char>) -> bool {
    has_prefix(m, "fwa#"@) || has_prefix(m, "fwl#"@) || has_prefix(m, "gfl#"@)
}

/// The commands that the message `m` asks for, in the order in which they
/// are carried out. Each test is made on the whole message, so one message
/// can ask for several.
pub open spec fn plan_of(m: Seq<char>) -> Seq<CommandView> {
    Seq::empty() + when(m == "指令"@, CommandView::Menu)
        + when(has_infix(m, "加盟#"@), CommandView::Join { tag: second_field(m, '#') })
        + when(has_infix(m, "更新#"@), CommandView::Update { tag: second_field(m, '#') })
        + when(m == "信息"@, CommandView::Info)
        + when(m == "待审核"@, CommandView::Pending)
        + when(
        has_infix(m, "审核#"@),
        CommandView::Approve { id: parse_i64_spec(second_field(m, '#')) },
    ) + when(names_alliance(m), CommandView::ShowTime { time_id: time_id_of(m) }) + when(
        sets_alliance_time(m),
        CommandView::SetTime {
            time_id: time_id_of(first_field(m, '#')),
            time: swap_char(second_field(m, '#'), '：', ':'),
        },
    ) + when(has_prefix(m, "查部落#"@), CommandView::ClanInfo { tag: second_field(m, '#') })
        + when(has_prefix(m, "对战日志#"@), CommandView::WarLog { tag: second_field(m, '#') })
}

fn push_command(cmds: &mut Vec<Command>, c: Command)
    ensures
        views(final(cmds)@) == views(old(cmds)@).push(c@),
{
    cmds.push(c);
    assert(views(cmds@) =~= views(old(cmds)@).push(c@));
}

fn push_when(cmds: &mut Vec<Command>, b: bool, c: Command)
    ensures
        views(final(cmds)@) == views(old(cmds)@) + when(b, c@),
{
    if b {
        push_command(cmds, c);
        assert(views(old(cmds)@).push(c@) =~= views(old(cmds)@) + seq![c@]);
    } else {
        assert(views(old(cmds)@) =~= views(old(cmds)@) + Seq::<CommandView>::empty());
    }
}

fn time_id_for(s: &Vec<char>) -> (id: u64)
    ensures
        id == time_id_of(s@),
{
    if same_text(s, &chars_of("fwa")) {
        81
    } else if same_text(s, &chars_of("fwl")) {
        82
    } else if same_text(s, &chars_of("gfl")) {
        83
    } else {
        0
    }
}

fn second_text(m: &Vec<char>) -> (t: String)
    ensures
        t@ == second_field(m@, '#'),
{
    text_of(&field_two(m, '#'))
}

fn note_menu(m: &Vec<char>, cmds: &mut Vec<Command>)
    ensures
        views(final(cmds)@) == views(old(cmds)@) + when(m@ == "指令"@, CommandView::Menu),
{
    let b = same_text(m, &chars_of("指令"));
    push_when(cmds, b, Command::Menu);
}

fn note_join(m: &Vec<char>, cmds: &mut Vec<Command>)
    ensures
        views(final(cmds)@) == views(old(cmds)@) + when(
            has_infix(m@, "加盟#"@),
            CommandView::Join { tag: second_field(m@, '#') },
        ),
{
    let b = contains(m, &chars_of("加盟#"));
    push_when(cmds, b, Command::Join { tag: second_text(m) });
}

fn note_update(m: &Vec<char>, cmds: &mut Vec<Command>)
    ensures
        views(final(cmds)@) == views(old(cmds)@) + when(
            has_infix(m@, "更新#"@),
            CommandView::Update { tag: second_field(m@, '#') },
        ),
{
    let b = contains(m, &chars_of("更新#"));
    push_when(cmds, b, Command::Update { tag: second_text(m) });
}

fn note_info(m: &Vec<char>, cmds: &mut Vec<Command>)
    ensures
        views(final(cmds)@) == views(old(cmds)@) + when(m@ == "信息"@, CommandView::Info),
{
    let b = same_text(m, &chars_of("信息"));
    push_when(cmds, b, Command::Info);
}

fn note_pending(m: &Vec<char>, cmds: &mut Vec<Command>)
    ensures
        views(final(cmds)@) == views(old(cmds)@) + when(m@ == "待审核"@, CommandView::Pending),
{
    let b = same_text(m, &chars_of("待审核"));
    push_when(cmds, b, Command::Pending);
}

fn note_approve(m: &Vec<char>, cmds: &mut Vec<Command>)
    ensures
        views(final(cmds)@) == views(old(cmds)@) + when(
            has_infix(m@, "审核#"@),
            CommandView::Approve { id: parse_i64_spec(second_field(m@, '#')) },
        ),
{
    let b = contains(m, &chars_of("审核#"));
    push_when(cmds, b, Command::Approve { id: parse_i64(&field_two(m, '#')) });
}

fn note_show_time(m: &Vec<char>, cmds: &mut Vec<Command>)
    ensures
        views(final(cmds)@) == views(old(cmds)@) + when(
            names_alliance(m@),
            CommandView::ShowTime { time_id: time_id_of(m@) },
        ),
{
    let b = same_text(m, &chars_of("fwa")) || same_text(m, &chars_of("fwl")) || same_text(
        m,
        &chars_of("gfl"),
    );
    push_when(cmds, b, Command::ShowTime { time_id: time_id_for(m) });
}

fn note_set_time(m: &Vec<char>, cmds: &mut Vec<Command>)
    ensures
        views(final(cmds)@) == views(old(cmds)@) + when(
            sets_alliance_time(m@),
            CommandView::SetTime {
                time_id: time_id_of(first_field(m@, '#')),
                time: swap_char(second_field(m@, '#'), '：', ':'),
            },
        ),
{
    let b = starts_with(m, &chars_of("fwa#")) || starts_with(m, &chars_of("fwl#")) || starts_with(
        m,
        &chars_of("gfl#"),
    );
    let id = time_id_for(&field_one(m, '#'));
    let time = text_of(&replace_char(&field_two(m, '#'), '：', ':'));
    push_when(cmds, b, Command::SetTime { time_id: id, time });
}

fn note_clan_info(m: &Vec<char>, cmds: &mut Vec<Command>)
    ensures
        views(final(cmds)@) == views(old(cmds)@) + when(
            has_prefix(m@, "查部落#"@),
            CommandView::ClanInfo { tag: second_field(m@, '#') },
        ),
{
    let b = starts_with(m, &chars_of("查部落#"));
    push_when(cmds, b, Command::ClanInfo { tag: second_text(m) });
}

fn note_war_log(m: &Vec<char>, cmds: &mut Vec<Command>)
    ensures
        views(final(cmds)@) == views(old(cmds)@) + when(
            has_prefix(m@, "对战日志#"@),
            CommandView::WarLog { tag: second_field(m@, '#') },
        ),
{
    let b = starts_with(m, &chars_of("对战日志#"));
    push_when(cmds, b, Command::WarLog { tag: second_text(m) });
}

/// The commands that `msg` asks for (see `plan_of`).
pub fn plan(msg: &str) -> (cmds: Vec<Command>)
    ensures
        views(cmds@) == plan_of(msg@),
{
    let m = chars_of(msg);
    let mut cmds: Vec<Command> = Vec::new();
    assert(views(cmds@) =~= Seq::<CommandView>::empty());
    note_menu(&m, &mut cmds);
    note_join(&m, &mut cmds);
    note_update(&m, &mut cmds);
    note_info(&m, &mut cmds);
    note_pending(&m, &mut cmds);
    note_approve(&m, &mut cmds);
    note_show_time(&m, &mut cmds);
    note_set_time(&m, &mut cmds);
    note_clan_info(&m, &mut cmds);
    note_war_log(&m, &mut cmds);
    cmds
}

proof fn lemma_plan_has_approve(m: Seq<char>, n: i64)
    requires
        has_infix(m, "审核#"@),
        parse_i64_spec(second_field(m, '#')) == Some(n),
    ensures
        plan_of(m).contains(CommandView::Approve { id: Some(n) }),
{
    let c = CommandView::Approve { id: Some(n) };
    let pre = Seq::empty() + when(m == "指令"@, CommandView::Menu)
        + when(has_infix(m, "加盟#"@), CommandView::Join { tag: second_field(m, '#') })
        + when(has_infix(m, "更新#"@), CommandView::Update { tag: second_field(m, '#') })
        + when(m == "信息"@, CommandView::Info)
        + when(m == "待审核"@, CommandView::Pending);
    let mid = pre + seq![c];
    assert(mid[pre.len() as int] == c);
    assert(plan_of(m)[pre.len() as int] == mid[pre.len() as int]);
}

proof fn lemma_quoted_field(t: Seq<char>)
    requires
        forall|j: int| 0 <= j < t.len() ==> t[j] != '#',
    ensures
        has_infix("审核#"@ + t, "审核#"@),
        second_field("审核#"@ + t, '#') == t,
{
    reveal_strlit("审核#");
    let lit = "审核#"@;
    let m = lit + t;
    assert(m.subrange(0, 3) =~= lit);
    assert(occurs_at(m, lit, 0));
    lemma_char_pos(m, '#', 2);
    let rest = m.skip(3);
    assert(rest =~= t);
    lemma_char_pos(t, '#', t.len() as int);
    assert(second_field(m, '#') =~= t);
}

/// Quoting after `审核#` the id that the waiting list shows for a record
/// asks to approve that very record.
pub proof fn lemma_approve_listed_id(n: i64)
    ensures
        plan_of("审核#"@ + i64_text(n)).contains(CommandView::Approve { id: Some(n) }),
{
    let t = i64_text(n);
    lemma_i64_text_chars(n);
    assert forall|j: int| 0 <= j < t.len() implies t[j] != '#' by {
        assert(t[j] == '-' || crate::number::is_digit(t[j]));
    }
    lemma_quoted_field(t);
    lemma_i64_text_round_trip(n);
    lemma_plan_has_approve("审核#"@ + t, n);
}

} // verus!
