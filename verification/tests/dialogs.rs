use snipe_bot::account::Request;
use snipe_bot::dialog::{agent_reply, sender_name, Action, Dialog, Event};
use snipe_bot::model::{ListTime, SnipeAccount, WxResponse, WxSendText};

fn message(from: Option<&str>, content: Option<&str>) -> WxResponse {
    WxResponse {
        to_user_name: Some("gh_bot".to_string()),
        from_user_name: from.map(|s| s.to_string()),
        create_time: Some(1700000000),
        msg_type: Some("text".to_string()),
        content: content.map(|s| s.to_string()),
        msg_id: Some(1),
        msg_data_id: None,
        idx: None,
    }
}

fn member(kind: Option<i64>) -> SnipeAccount {
    SnipeAccount {
        id: Some(5),
        name: Some("u1".to_string()),
        tag: Some("#Q1".to_string()),
        clan_name: Some("部落".to_string()),
        kind,
        status: Some(1),
        create_time: None,
        update_time: None,
    }
}

/// Runs a dialog, answering each call with `answer`; returns the calls made
/// and the reply.
fn run(msg: &WxResponse, answer: &dyn Fn(&Request) -> Event) -> (Vec<Request>, WxSendText) {
    let mut d = Dialog::start(msg);
    let mut calls = Vec::new();
    let mut event = None;
    loop {
        match d.advance(event.take()) {
            Action::Call(r) => {
                event = Some(answer(&r));
                calls.push(r);
            },
            Action::Done => break,
        }
        assert!(calls.len() < 50);
    }
    (calls, d.into_reply())
}

fn content(t: &WxSendText) -> &str {
    t.content.as_deref().unwrap()
}

#[test]
fn plain_text_gets_default_answer() {
    let msg = message(Some("u1"), Some("你好"));
    let (calls, reply) = run(&msg, &|_| panic!("no call expected"));
    assert!(calls.is_empty());
    assert_eq!(content(&reply), "啊～不要。。。");
    assert_eq!(reply.to_user_name, Some("u1".to_string()));
    assert_eq!(reply.from_user_name, Some("gh_bot".to_string()));
    assert_eq!(reply.create_time, Some(1700000000));
    assert_eq!(reply.msg_type, Some("text".to_string()));
}

#[test]
fn message_without_text_gets_empty_reply() {
    let msg = message(Some("u1"), None);
    let (calls, reply) = run(&msg, &|_| panic!("no call expected"));
    assert!(calls.is_empty());
    assert_eq!(reply, WxSendText::new());
}

#[test]
fn menu_for_admin() {
    let msg = message(Some("u1"), Some("指令"));
    let (calls, reply) = run(&msg, &|_| Event::Account(Some(member(Some(1)))));
    assert_eq!(calls, vec![Request::SearchAccount { name: "u1".into(), status: 1 }]);
    assert!(content(&reply).ends_with("审核#标签\nfwa/gfl#新时间"));
}

#[test]
fn sender_defaults_to_none() {
    let msg = message(None, Some("信息"));
    assert_eq!(sender_name(&msg), "none");
    let (calls, reply) = run(&msg, &|_| Event::Account(None));
    assert_eq!(calls, vec![Request::SearchAccount { name: "none".into(), status: 1 }]);
    assert_eq!(content(&reply), "【信息】\n微信: \n标签: \n部落: ");
}

#[test]
fn join_with_short_tag_makes_no_call() {
    let msg = message(Some("u1"), Some("加盟#abc"));
    let (calls, reply) = run(&msg, &|_| panic!("no call expected"));
    assert!(calls.is_empty());
    assert_eq!(content(&reply), "标签错误");
}

#[test]
fn join_outcomes() {
    let msg = message(Some("u1"), Some("加盟#q82u"));
    let (calls, reply) = run(&msg, &|_| Event::Message(Some("提交成功".into())));
    assert_eq!(calls, vec![Request::CreateAccount { name: "u1".into(), tag: "q82u".into() }]);
    assert_eq!(content(&reply), "提交成功");
    let (_, reply) = run(&msg, &|_| Event::Message(None));
    assert_eq!(content(&reply), "警告，请检查是否重复提交");
    let (_, reply) = run(&msg, &|_| Event::Failed("timeout".into()));
    assert_eq!(content(&reply), "失败，请检查是否重复提交");
}

#[test]
fn update_outcomes() {
    let msg = message(Some("u1"), Some("更新#中文"));
    let (calls, reply) = run(&msg, &|_| Event::Message(None));
    assert_eq!(calls, vec![Request::UpdateAccount { name: "u1".into(), tag: "中文".into() }]);
    assert_eq!(content(&reply), "警告，没有变动");
    let (_, reply) = run(&msg, &|_| Event::Failed("x".into()));
    assert_eq!(content(&reply), "失败，系统错误");
}

#[test]
fn approve_needs_admin() {
    let msg = message(Some("u1"), Some("审核#12"));
    let (calls, reply) = run(&msg, &|_| Event::Account(Some(member(Some(2)))));
    assert_eq!(calls, vec![Request::SearchAccount { name: "u1".into(), status: 1 }]);
    assert_eq!(content(&reply), "无权限");
    let (calls, reply) = run(&msg, &|r| match r {
        Request::SearchAccount { .. } => Event::Account(Some(member(Some(1)))),
        _ => Event::Body("1".into()),
    });
    assert_eq!(calls[1], Request::ApproveAccount { id: 12 });
    assert_eq!(content(&reply), "修改成功");
    let (_, reply) = run(&msg, &|r| match r {
        Request::SearchAccount { .. } => Event::Account(Some(member(Some(1)))),
        _ => Event::Body("0".into()),
    });
    assert_eq!(content(&reply), "无变化");
    let (_, reply) = run(&msg, &|r| match r {
        Request::SearchAccount { .. } => Event::Account(Some(member(Some(1)))),
        _ => Event::Failed("error sending request".into()),
    });
    assert_eq!(content(&reply), "error sending request");
}

#[test]
fn approve_without_number() {
    let msg = message(Some("u1"), Some("审核#abc"));
    let (calls, reply) = run(&msg, &|_| panic!("no call expected"));
    assert!(calls.is_empty());
    assert_eq!(content(&reply), "无对象");
}

#[test]
fn waiting_list_for_admin_only() {
    let msg = message(Some("u1"), Some("待审核"));
    let (calls, reply) = run(&msg, &|_| Event::Account(Some(member(Some(2)))));
    assert_eq!(calls.len(), 1);
    assert_eq!(content(&reply), "【待审核】");
    let (calls, reply) = run(&msg, &|r| match r {
        Request::SearchAccount { .. } => Event::Account(Some(member(Some(1)))),
        _ => Event::Accounts(Some(vec![member(None)])),
    });
    assert_eq!(calls[1], Request::ListWaiting);
    assert_eq!(content(&reply), "【待审核】\n---------------\n【5】 | #Q1\n部落\nu1\r\n");
}

#[test]
fn war_window_for_members() {
    let msg = message(Some("u1"), Some("fwl"));
    let (_, reply) = run(&msg, &|_| Event::Account(Some(member(None))));
    assert_eq!(content(&reply), "未加盟");
    let (calls, reply) = run(&msg, &|r| match r {
        Request::SearchAccount { .. } => Event::Account(Some(member(Some(2)))),
        _ => Event::Time(ListTime { union: "FWL".into(), day: "周日".into(), time: "8:00".into() }),
    });
    assert_eq!(calls[1], Request::GetTime { time_id: 82 });
    assert_eq!(content(&reply), "FWL: 周日 8:00");
}

#[test]
fn setting_war_window() {
    let msg = message(Some("u1"), Some("fwa#20：30"));
    let (calls, reply) = run(&msg, &|_| Event::Account(Some(member(Some(2)))));
    assert_eq!(calls.len(), 1);
    assert_eq!(content(&reply), "无权限");
    let (calls, reply) = run(&msg, &|r| match r {
        Request::SearchAccount { .. } => Event::Account(Some(member(Some(1)))),
        _ => Event::Decoded(Some("ok".into())),
    });
    assert_eq!(calls[1], Request::SetTime { time_id: 81, time: "20:30".into() });
    assert_eq!(content(&reply), "ok");
}

#[test]
fn clan_queries() {
    let msg = message(Some("u1"), Some("查部落#abc"));
    let (calls, reply) = run(&msg, &|_| Event::Decoded(Some("clan data".into())));
    assert_eq!(calls, vec![Request::ClanInfo { tag: "abc".into() }]);
    assert_eq!(content(&reply), "clan data");
    let msg = message(Some("u1"), Some("对战日志#abc"));
    let (calls, reply) = run(&msg, &|_| Event::Decoded(None));
    assert_eq!(calls, vec![Request::WarLog { tag: "abc".into() }]);
    assert_eq!(content(&reply), "");
}

#[test]
fn last_answer_wins() {
    let msg = message(Some("u1"), Some("加盟#a#审核#"));
    let (calls, reply) = run(&msg, &|_| panic!("no call expected"));
    assert!(calls.is_empty());
    assert_eq!(content(&reply), "无对象");
    let msg = message(Some("u1"), Some("加盟#abcd审核#7"));
    let (calls, reply) = run(&msg, &|r| match r {
        Request::CreateAccount { .. } => Event::Message(Some("joined".into())),
        _ => Event::Account(Some(member(Some(2)))),
    });
    assert_eq!(calls, vec![Request::CreateAccount { name: "u1".into(), tag: "abcd审核".into() }]);
    assert_eq!(content(&reply), "无对象");
}

#[test]
fn agent_reply_addressing() {
    let msg = message(Some("u1"), Some("查询标签#q82u2qr9"));
    let t = agent_reply(&msg, Some("答".into()));
    assert_eq!(t.to_user_name, Some("u1".into()));
    assert_eq!(t.from_user_name, Some("gh_bot".into()));
    assert_eq!(t.content, Some("答".into()));
    assert_eq!(agent_reply(&msg, None).content, Some(String::new()));
    assert_eq!(agent_reply(&message(Some("u1"), None), Some("x".into())), WxSendText::new());
}
