//! The settings of the chat agent that answers free-form messages, and the
//! clan lookup it may call.

use vstd::prelude::*;
use crate::text::{chars_of, text_of, trim_leading, trim_start};

verus! {

/// The agent's instructions as read from its file.
#[derive(Clone, Debug, PartialEq, Eq)]
pub struct Preamble {
    pub first_preamble: Option<String>,
    pub preambles: Option<Vec<String>>,
}

/// How the agent is built.
#[derive(Debug, PartialEq, Eq)]
pub struct AgentSetup {
    /// The model that answers.
    pub model: String,
    /// Where the model server listens.
    pub base_url: String,
    /// The agent's main instruction.
    pub preamble: String,
    /// Further instructions, appended in order.
    pub extra: Vec<String>,
    /// The most tokens an answer may have.
    pub max_tokens: u64,
}

/// The model used where the configuration names none.
pub open spec fn default_model() -> Seq<char> {
    "qwen3:0.6b"@
}

/// The main instruction used where the file gives none.
pub open spec fn default_preamble() -> Seq<char> {
    "你现在是一个负责查询和整理游戏《部落冲突》的数据助理，查询到的数据都是json格式，字段是英文的，当我以其他语言问你字段信息的时候，你需要将统计结果以询问的语言展示出来"@
}

/// The further instructions used where the file gives none.
pub open spec fn default_extras() -> Seq<Seq<char>> {
    seq![
        "术语注解：Town Hall是主世界玩法；town_hall_level是大本营等级，又称大本等级；donations指的与捐赠部队有关的信息，玩家圈子俗称捐兵与收兵。对照表不要出现在结果里面"@,
        "数据整理需要包括部落名称，部落标签，部落首领标签和名称，部落位置及一些基础信息，大本营等级分布统计，联赛段位分布统计，不要展示非首领成员的信息，只关注部落情况"@,
    ]
}

/// The texts of a list of strings.
pub open spec fn texts(v: Seq<String>) -> Seq<Seq<char>> {
    v.map_values(|s: String| s@)
}

fn copy_texts(v: &Vec<String>) -> (w: Vec<String>)
    ensures
        texts(w@) == texts(v@),
{
    let mut w: Vec<String> = Vec::new();
    let mut i: usize = 0;
    while i < v.len()
        invariant
            i <= v.len(),
            w@.len() == i,
            texts(w@) == texts(v@.take(i as int)),
        decreases v.len() - i,
    {
        let ghost before = w@;
        let c = v[i].clone();
        w.push(c);
        assert forall|j: int| 0 <= j < i + 1 implies texts(w@)[j] == texts(v@.take(i + 1))[j] by {
            if j < i {
                assert(w@[j] == before[j]);
                assert(texts(before)[j] == texts(v@.take(i as int))[j]);
            }
        }
        assert(texts(w@) =~= texts(v@.take(i + 1)));
        i = i + 1;
    }
    assert(v@.take(v.len() as int) =~= v@);
    w
}

/// How the agent is built from its instructions and the configured model:
/// the file's instructions where it has them, the built-in ones where not.
pub fn agent_setup(preamble: &Preamble, model: &Option<String>) -> (a: AgentSetup)
    ensures
        a.model@ == match model {
            Some(m) => m@,
            None => default_model(),
        },
        a.base_url@ == "http://localhost:11434"@,
        a.preamble@ == match preamble.first_preamble {
            Some(p) => p@,
            None => default_preamble(),
        },
        texts(a.extra@) == match preamble.preambles {
            Some(ps) => texts(ps@),
            None => default_extras(),
        },
        a.max_tokens == 20480,
{
    let m = match model {
        Some(m) => m.clone(),
        None => "qwen3:0.6b".to_owned(),
    };
    let p = match &preamble.first_preamble {
        Some(p) => p.clone(),
        None => "你现在是一个负责查询和整理游戏《部落冲突》的数据助理，查询到的数据都是json格式，字段是英文的，当我以其他语言问你字段信息的时候，你需要将统计结果以询问的语言展示出来".to_owned(),
    };
    let extra = match &preamble.preambles {
        Some(ps) => copy_texts(ps),
        None => {
            let mut v: Vec<String> = Vec::new();
            v.push("术语注解：Town Hall是主世界玩法；town_hall_level是大本营等级，又称大本等级；donations指的与捐赠部队有关的信息，玩家圈子俗称捐兵与收兵。对照表不要出现在结果里面".to_owned());
            v.push("数据整理需要包括部落名称，部落标签，部落首领标签和名称，部落位置及一些基础信息，大本营等级分布统计，联赛段位分布统计，不要展示非首领成员的信息，只关注部落情况".to_owned());
            assert(texts(v@) =~= default_extras());
            v
        },
    };
    AgentSetup {
        model: m,
        base_url: "http://localhost:11434".to_owned(),
        preamble: p,
        extra,
        max_tokens: 20480,
    }
}

/// The game API's URL for the clan `tag`: leading `#` characters are
/// dropped and the tag is sent after an encoded `#` (`%23`).
pub open spec fn clan_url_text(tag: Seq<char>) -> Seq<char> {
    "https://api.clashofclans.com/v1/clans/%23"@ + trim_leading(tag, seq!['#'])
}

/// The URL of the game API's record of the clan `tag`.
pub fn clan_url(tag: &str) -> (u: String)
    ensures
        u@ == clan_url_text(tag@),
{
    let mut hash: Vec<char> = Vec::new();
    hash.push('#');
    assert(hash@ =~= seq!['#']);
    let rest = text_of(&trim_start(&chars_of(tag), &hash));
    let mut u = "https://api.clashofclans.com/v1/clans/%23".to_owned();
    u.append(rest.as_str());
    u
}

/// The authorization header for the game API: `Bearer` and the token.
pub fn bearer(token: &str) -> (h: String)
    ensures
        h@ == "Bearer "@ + token@,
{
    let mut h = "Bearer ".to_owned();
    h.append(token);
    h
}

} // verus!
