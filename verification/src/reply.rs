//! The wording of the bot's answers.

use vstd::prelude::*;
use crate::config::{owned_or_empty, text_or_empty};
use crate::model::SnipeAccount;
use crate::number::{i64_chars, i64_text};
use crate::text::{chars_of, has_infix, has_prefix, occurs_at, replace_all, replace_text, text_of, trim_leading, trim_start};

verus! {

/// `items`, each on a line of its own after the line it follows.
pub open spec fn lines_after(items: Seq<Seq<char>>) -> Seq<char>
    decreases items.len(),
{
    if items.len() == 0 {
        Seq::empty()
    } else {
        lines_after(items.drop_last()) + "\n"@ + items.last()
    }
}

/// The commands that every sender may use.
pub open spec fn base_menu() -> Seq<Seq<char>> {
    seq!["加盟#标签"@, "fwa/gfl"@, "查部落#标签"@, "对战日志#标签"@]
}

/// The commands listed for a sender whose record has the given kind:
/// administrators (1) and members (2) see more than others.
pub open spec fn menu_items(kind: Option<i64>) -> Seq<Seq<char>> {
    if kind == Some(1i64) {
        base_menu() + seq!["更新#标签"@, "信息"@, "待审核"@, "审核#标签"@, "fwa/gfl#新时间"@]
    } else if kind == Some(2i64) {
        base_menu() + seq!["更新#标签"@, "信息"@, "fwa"@]
    } else {
        base_menu()
    }
}

/// The answer to `指令`.
pub open spec fn menu_text(kind: Option<i64>) -> Seq<char> {
    "【指令】"@ + lines_after(menu_items(kind))
}

/// The answer to `信息`: the sender's name, tag and clan.
pub open spec fn info_text(a: SnipeAccount) -> Seq<char> {
    "【信息】"@ + "\n"@ + "微信: "@ + text_or_empty(a.name) + "\n"@ + "标签: "@ + text_or_empty(a.tag)
        + "\n"@ + "部落: "@ + text_or_empty(a.clan_name)
}

/// Every record in `accs` has the id and the tag that a listing shows.
pub open spec fn listable(accs: Seq<SnipeAccount>) -> bool {
    forall|i: int| 0 <= i < accs.len() ==> (#[trigger] accs[i]).id is Some && accs[i].tag is Some
}

/// One record of the waiting list.
pub open spec fn pending_entry(a: SnipeAccount) -> Seq<char> {
    "\n"@ + "---------------"@ + "\n"@ + "【"@ + i64_text(a.id->0) + "】 | "@ + text_or_empty(a.tag)
        + "\n"@ + text_or_empty(a.clan_name) + "\n"@ + text_or_empty(a.name) + "\r\n"@
}

/// The records of the waiting list, in order.
pub open spec fn pending_entries(accs: Seq<SnipeAccount>) -> Seq<char>
    decreases accs.len(),
{
    if accs.len() == 0 {
        Seq::empty()
    } else {
        pending_entries(accs.drop_last()) + pending_entry(accs.last())
    }
}

/// The answer to `待审核`.
pub open spec fn pending_text(accs: Seq<SnipeAccount>) -> Seq<char> {
    "【待审核】"@ + pending_entries(accs)
}

fn append_lines(out: &mut String, items: &Vec<&str>)
    ensures
        final(out)@ == old(out)@ + lines_after(items@.map_values(|s: &str| s@)),
{
    let mut i: usize = 0;
    assert(items@.map_values(|s: &str| s@).take(0) =~= Seq::<Seq<char>>::empty());
    assert(old(out)@ + Seq::<char>::empty() =~= old(out)@);
    while i < items.len()
        invariant
            i <= items.len(),
            out@ == old(out)@ + lines_after(items@.map_values(|s: &str| s@).take(i as int)),
        decreases items.len() - i,
    {
        out.append("\n");
        out.append(items[i]);
        let ghost t = items@.map_values(|s: &str| s@).take(i + 1);
        assert(t.drop_last() =~= items@.map_values(|s: &str| s@).take(i as int));
        assert(items@.map_values(|s: &str| s@)[i as int] == items@[i as int]@);
        i = i + 1;
    }
    assert(items@.map_values(|s: &str| s@).take(items.len() as int) =~= items@.map_values(|s: &str| s@));
}

/// The answer to `指令` for a sender whose record has kind `kind`.
pub fn menu(kind: Option<i64>) -> (s: String)
    ensures
        s@ == menu_text(kind),
{
    let mut items: Vec<&str> = vec!["加盟#标签", "fwa/gfl", "查部落#标签", "对战日志#标签"];
    if kind == Some(1i64) {
        items.push("更新#标签");
        items.push("信息");
        items.push("待审核");
        items.push("审核#标签");
        items.push("fwa/gfl#新时间");
    } else if kind == Some(2i64) {
        items.push("更新#标签");
        items.push("信息");
        items.push("fwa");
    }
    assert(items@.map_values(|s: &str| s@) =~= menu_items(kind));
    let mut s = "【指令】".to_owned();
    append_lines(&mut s, &items);
    s
}

/// The answer to `信息` for the record `a`.
pub fn info(a: &SnipeAccount) -> (s: String)
    ensures
        s@ == info_text(*a),
{
    let mut s = "【信息】".to_owned();
    s.append("\n");
    s.append("微信: ");
    s.append(owned_or_empty(&a.name).as_str());
    s.append("\n");
    s.append("标签: ");
    s.append(owned_or_empty(&a.tag).as_str());
    s.append("\n");
    s.append("部落: ");
    s.append(owned_or_empty(&a.clan_name).as_str());
    s
}

/// One record of the waiting list, as `pending_entry` words it.
pub fn entry(a: &SnipeAccount) -> (s: String)
    requires
        a.id is Some,
    ensures
        s@ == pending_entry(*a),
{
    let id = match a.id {
        Some(v) => v,
        None => 0,
    };
    let mut s = "\n".to_owned();
    s.append("---------------");
    s.append("\n");
    s.append("【");
    s.append(text_of(&i64_chars(id)).as_str());
    s.append("】 | ");
    s.append(owned_or_empty(&a.tag).as_str());
    s.append("\n");
    s.append(owned_or_empty(&a.clan_name).as_str());
    s.append("\n");
    s.append(owned_or_empty(&a.name).as_str());
    s.append("\r\n");
    s
}

/// The answer to `待审核` for the waiting records `accs`.
pub fn pending(accs: &Vec<SnipeAccount>) -> (s: String)
    requires
        listable(accs@),
    ensures
        s@ == pending_text(accs@),
{
    let mut s = "【待审核】".to_owned();
    let mut i: usize = 0;
    assert(accs@.take(0) =~= Seq::<SnipeAccount>::empty());
    while i < accs.len()
        invariant
            i <= accs.len(),
            listable(accs@),
            s@ == pending_text(accs@.take(i as int)),
        decreases accs.len() - i,
    {
        assert(accs@[i as int].id is Some);
        let e = entry(&accs[i]);
        let ghost before = s@;
        s.append(e.as_str());
        let ghost t = accs@.take(i + 1);
        assert(t.drop_last() =~= accs@.take(i as int));
        assert(t.last() == accs@[i as int]);
        assert(s@ =~= before + pending_entry(accs@[i as int]));
        i = i + 1;
    }
    assert(accs@.take(accs.len() as int) =~= accs@);
    s
}

/// The declaration that the XML serializer writes first.
pub open spec fn xml_declaration() -> Seq<char> {
    "<?xml version=\"1.0\" encoding=\"UTF-8\"?>"@
}

/// The XML that answers WeChat: the serialized reply without its leading
/// declarations, with the element name `WxSendText` written as `xml`.
pub open spec fn finished_xml(xml: Seq<char>) -> Seq<char> {
    replace_all(trim_leading(xml, xml_declaration()), "WxSendText"@, "xml"@)
}

/// Turns the serialized reply into the XML that WeChat expects.
pub fn finish_xml(xml: &str) -> (s: String)
    ensures
        s@ == finished_xml(xml@),
{
    let decl = chars_of("<?xml version=\"1.0\" encoding=\"UTF-8\"?>");
    let body = trim_start(&chars_of(xml), &decl);
    let name = chars_of("WxSendText");
    proof {
        reveal_strlit("WxSendText");
    }
    let out = replace_text(&body, &name, &chars_of("xml"));
    text_of(&out)
}

/// If the renamed text begins with the last `10 - j` characters of
/// `WxSendText` (for `j >= 1`), so does the text before renaming.
proof fn lemma_renamed_prefix(s: Seq<char>, j: int)
    requires
        1 <= j <= 10,
    ensures
        has_prefix(replace_all(s, "WxSendText"@, "xml"@), "WxSendText"@.skip(j)) ==> has_prefix(
            s,
            "WxSendText"@.skip(j),
        ),
    decreases 10 - j,
{
    reveal_strlit("WxSendText");
    reveal_strlit("xml");
    let p = "WxSendText"@;
    let q = p.skip(j);
    let out = replace_all(s, p, "xml"@);
    if j == 10 {
        assert(q =~= Seq::<char>::empty());
        assert(s.subrange(0, 0) =~= q);
    } else if has_prefix(out, q) {
        assert(out.subrange(0, q.len() as int)[0] == out[0]);
        assert(q[0] == p[j]);
        if s.len() == 0 {
            assert(out.len() == 0);
        } else if has_prefix(s, p) {
            assert(out[0] == 'x');
            assert(j == 1 || j == 8);
            assert(out[1] == 'm');
            assert(out.subrange(0, q.len() as int)[1] == out[1]);
        } else {
            let t = replace_all(s.drop_first(), p, "xml"@);
            assert(out == seq![s[0]] + t);
            assert(s[0] == q[0]);
            assert(t.subrange(0, q.len() - 1) =~= out.subrange(1, q.len() as int));
            assert(out.subrange(1, q.len() as int) =~= out.subrange(0, q.len() as int).drop_first());
            assert(p.skip(j + 1) =~= q.drop_first());
            assert(t.subrange(0, p.skip(j + 1).len() as int) =~= p.skip(j + 1));
            assert(has_prefix(t, p.skip(j + 1)));
            lemma_renamed_prefix(s.drop_first(), j + 1);
            assert(s.subrange(0, q.len() as int) =~= seq![s[0]] + s.drop_first().subrange(0, q.len() - 1));
            assert(seq![s[0]] + q.drop_first() =~= q);
            assert(has_prefix(s, q));
        }
    }
}

/// After renaming, no `WxSendText` is left in the text.
pub proof fn lemma_renaming_complete(s: Seq<char>)
    ensures
        !has_infix(replace_all(s, "WxSendText"@, "xml"@), "WxSendText"@),
    decreases s.len(),
{
    reveal_strlit("WxSendText");
    reveal_strlit("xml");
    let p = "WxSendText"@;
    let out = replace_all(s, p, "xml"@);
    if s.len() == 0 {
        assert(out.len() == 0);
    } else if has_prefix(s, p) {
        let t = replace_all(s.skip(10), p, "xml"@);
        lemma_renaming_complete(s.skip(10));
        assert(out == "xml"@ + t);
        assert forall|k: int| !occurs_at(out, p, k) by {
            if occurs_at(out, p, k) {
                if k >= 3 {
                    assert(t.subrange(k - 3, k - 3 + 10) =~= out.subrange(k, k + 10));
                    assert(occurs_at(t, p, k - 3));
                } else {
                    assert(out.subrange(k, k + 10)[0] == out[k]);
                }
            }
        }
    } else {
        let t = replace_all(s.drop_first(), p, "xml"@);
        lemma_renaming_complete(s.drop_first());
        assert(out == seq![s[0]] + t);
        assert forall|k: int| !occurs_at(out, p, k) by {
            if occurs_at(out, p, k) {
                if k >= 1 {
                    assert(t.subrange(k - 1, k - 1 + 10) =~= out.subrange(k, k + 10));
                    assert(occurs_at(t, p, k - 1));
                } else {
                    assert(t.subrange(0, 9) =~= out.subrange(1, 10));
                    assert(out.subrange(1, 10) =~= out.subrange(0, 10).drop_first());
                    assert(p.skip(1) =~= p.drop_first());
                    assert(t.subrange(0, p.skip(1).len() as int) =~= p.skip(1));
                    assert(out.subrange(0, 10)[0] == out[0]);
                    assert(has_prefix(t, p.skip(1)));
                    lemma_renamed_prefix(s.drop_first(), 1);
                    assert(s.subrange(0, 10) =~= seq![s[0]] + s.drop_first().subrange(0, 9));
                    assert(seq![s[0]] + p.skip(1) =~= p);
                    assert(has_prefix(s, p));
                }
            }
        }
    }
}

/// The XML sent to WeChat names no `WxSendText` element: every occurrence
/// of the serializer's name has become `xml`.
pub proof fn lemma_finished_xml_renamed(xml: Seq<char>)
    ensures
        !has_infix(finished_xml(xml), "WxSendText"@),
{
    lemma_renaming_complete(trim_leading(xml, xml_declaration()));
}

/// Every record's entry appears in the listing of the records.
pub proof fn lemma_entries_hold_each(accs: Seq<SnipeAccount>, i: int)
    requires
        0 <= i < accs.len(),
    ensures
        has_infix(pending_entries(accs), pending_entry(accs[i])),
    decreases accs.len(),
{
    let rest = accs.drop_last();
    let whole = pending_entries(accs);
    assert(whole == pending_entries(rest) + pending_entry(accs.last()));
    if i == accs.len() - 1 {
        let k = pending_entries(rest).len() as int;
        assert(whole.subrange(k, k + pending_entry(accs[i]).len()) =~= pending_entry(accs[i]));
        assert(occurs_at(whole, pending_entry(accs[i]), k));
    } else {
        lemma_entries_hold_each(rest, i);
        assert(rest[i] == accs[i]);
        let e = pending_entry(accs[i]);
        let k = choose|k: int| occurs_at(pending_entries(rest), e, k);
        assert(whole.subrange(k, k + e.len()) =~= pending_entries(rest).subrange(k, k + e.len()));
        assert(occurs_at(whole, e, k));
    }
}

} // verus!
