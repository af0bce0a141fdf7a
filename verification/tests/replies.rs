use snipe_bot::agent::{agent_setup, bearer, clan_url, Preamble};
use snipe_bot::model::{ListTime, SnipeAccount, WxSendText};
use snipe_bot::reply::{entry, finish_xml, info, menu, pending};

fn account(id: Option<i64>, name: &str, tag: &str, clan: &str, kind: Option<i64>) -> SnipeAccount {
    SnipeAccount {
        id,
        name: Some(name.to_string()),
        tag: Some(tag.to_string()),
        clan_name: Some(clan.to_string()),
        kind,
        status: Some(0),
        create_time: None,
        update_time: None,
    }
}

#[test]
fn menus_by_kind() {
    assert_eq!(menu(None), "【指令】\n加盟#标签\nfwa/gfl\n查部落#标签\n对战日志#标签");
    assert_eq!(
        menu(Some(1)),
        "【指令】\n加盟#标签\nfwa/gfl\n查部落#标签\n对战日志#标签\n更新#标签\n信息\n待审核\n审核#标签\nfwa/gfl#新时间"
    );
    assert_eq!(menu(Some(2)), "【指令】\n加盟#标签\nfwa/gfl\n查部落#标签\n对战日志#标签\n更新#标签\n信息\nfwa");
    assert_eq!(menu(Some(3)), menu(None));
}

#[test]
fn info_lines() {
    let a = account(Some(1), "张三", "#Q82U", "部落A", Some(2));
    assert_eq!(info(&a), "【信息】\n微信: 张三\n标签: #Q82U\n部落: 部落A");
    assert_eq!(info(&SnipeAccount::default()), "【信息】\n微信: \n标签: \n部落: ");
}

#[test]
fn waiting_list() {
    assert_eq!(pending(&vec![]), "【待审核】");
    let a = account(Some(12), "n1", "#T1", "c1", None);
    let b = account(Some(-3), "n2", "#T2", "c2", None);
    assert_eq!(entry(&a), "\n---------------\n【12】 | #T1\nc1\nn1\r\n");
    assert_eq!(
        pending(&vec![a, b]),
        "【待审核】\n---------------\n【12】 | #T1\nc1\nn1\r\n\n---------------\n【-3】 | #T2\nc2\nn2\r\n"
    );
}

#[test]
fn war_window_text() {
    let t = ListTime { union: "FWA".into(), day: "周六".into(), time: "20:00".into() };
    assert_eq!(t.format_time(), "FWA: 周六 20:00");
}

#[test]
fn xml_for_wechat() {
    let x = "<?xml version=\"1.0\" encoding=\"UTF-8\"?><WxSendText><Content>hi</Content></WxSendText>";
    assert_eq!(finish_xml(x), "<xml><Content>hi</Content></xml>");
    assert_eq!(finish_xml("<a/>"), "<a/>");
}

#[test]
fn no_serializer_name_is_left() {
    for x in ["WxSendWxSendTextText", "WxSendTextWxSendText", "<WxSendText>WxSendTex</WxSendText>"] {
        let out = finish_xml(x);
        assert!(!out.contains("WxSendText"), "{}", out);
    }
    assert_eq!(finish_xml("WxSendWxSendTextText"), "WxSendxmlText");
}

#[test]
fn empty_reply() {
    let t = WxSendText::new();
    assert_eq!(t.to_user_name, None);
    assert_eq!(t.content, None);
    assert_eq!(t.msg_type, None);
}

#[test]
fn agent_defaults() {
    let p = Preamble { first_preamble: None, preambles: None };
    let a = agent_setup(&p, &None);
    assert_eq!(a.model, "qwen3:0.6b");
    assert_eq!(a.base_url, "http://localhost:11434");
    assert!(a.preamble.starts_with("你现在是一个负责查询"));
    assert_eq!(a.extra.len(), 2);
    assert_eq!(a.max_tokens, 20480);
}

#[test]
fn agent_from_file() {
    let p = Preamble { first_preamble: Some("p0".into()), preambles: Some(vec!["p1".into(), "p2".into(), "p3".into()]) };
    let a = agent_setup(&p, &Some("llama3".into()));
    assert_eq!(a.model, "llama3");
    assert_eq!(a.preamble, "p0");
    assert_eq!(a.extra, vec!["p1".to_string(), "p2".to_string(), "p3".to_string()]);
}

#[test]
fn clan_lookup() {
    assert_eq!(clan_url("#q82u2qr9"), "https://api.clashofclans.com/v1/clans/%23q82u2qr9");
    assert_eq!(clan_url("##x"), "https://api.clashofclans.com/v1/clans/%23x");
    assert_eq!(clan_url("x#"), "https://api.clashofclans.com/v1/clans/%23x#");
    assert_eq!(bearer("tk"), "Bearer tk");
}
