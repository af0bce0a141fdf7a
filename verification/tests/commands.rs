use snipe_bot::account::{normalize_tag, Request, RequestBody};
use snipe_bot::command::{plan, Command};

fn tag(t: &str) -> String {
    t.to_string()
}

#[test]
fn tags_are_stored_with_one_hash() {
    assert_eq!(normalize_tag("q82u2qr9"), "#q82u2qr9");
    assert_eq!(normalize_tag("#q82u"), "#q82u");
    assert_eq!(normalize_tag("##a#b"), "#ab");
    assert_eq!(normalize_tag(""), "#");
}

#[test]
fn storing_a_stored_tag_changes_nothing() {
    for t in ["abc", "#abc", "a#b#", "#", "标签"] {
        let once = normalize_tag(t);
        assert_eq!(normalize_tag(&once), once);
    }
}

#[test]
fn plan_of_single_commands() {
    assert_eq!(plan("指令"), vec![Command::Menu]);
    assert_eq!(plan("信息"), vec![Command::Info]);
    assert_eq!(plan("待审核"), vec![Command::Pending]);
    assert_eq!(plan("加盟#q82u"), vec![Command::Join { tag: tag("q82u") }]);
    assert_eq!(plan("更新#q82u"), vec![Command::Update { tag: tag("q82u") }]);
    assert_eq!(plan("审核#12"), vec![Command::Approve { id: Some(12) }]);
    assert_eq!(plan("审核#x"), vec![Command::Approve { id: None }]);
    assert_eq!(plan("fwa"), vec![Command::ShowTime { time_id: 81 }]);
    assert_eq!(plan("fwl"), vec![Command::ShowTime { time_id: 82 }]);
    assert_eq!(plan("gfl"), vec![Command::ShowTime { time_id: 83 }]);
    assert_eq!(plan("gfl#12：30"), vec![Command::SetTime { time_id: 83, time: tag("12:30") }]);
    assert_eq!(plan("查部落#abc"), vec![Command::ClanInfo { tag: tag("abc") }]);
    assert_eq!(plan("对战日志#abc"), vec![Command::WarLog { tag: tag("abc") }]);
}

#[test]
fn plan_of_plain_text_is_empty() {
    assert_eq!(plan("你好"), vec![]);
    assert_eq!(plan(""), vec![]);
    assert_eq!(plan("fwa "), vec![]);
    assert_eq!(plan("x查部落#abc"), vec![]);
}

#[test]
fn one_message_can_ask_for_several() {
    assert_eq!(
        plan("加盟#a#审核#"),
        vec![Command::Join { tag: tag("a") }, Command::Approve { id: None }]
    );
    assert_eq!(
        plan("加盟#abcd更新#"),
        vec![Command::Join { tag: tag("abcd更新") }, Command::Update { tag: tag("abcd更新") }]
    );
}

#[test]
fn listed_id_is_approved() {
    for id in [1i64, 42, 9007199254740993] {
        let m = format!("审核#{}", id);
        assert_eq!(plan(&m), vec![Command::Approve { id: Some(id) }]);
    }
}

#[test]
fn request_paths() {
    let base = "http://svc";
    let r = Request::SearchAccount { name: tag("u1"), status: 1 };
    assert_eq!(r.url(base), "http://svc/get/oa_search");
    assert_eq!(Request::CreateAccount { name: tag("u"), tag: tag("t") }.path(), "/get/oa_to");
    assert_eq!(Request::UpdateAccount { name: tag("u"), tag: tag("t") }.path(), "/get/oa_up");
    assert_eq!(Request::ListWaiting.path(), "/get/oa_wait");
    assert_eq!(Request::ApproveAccount { id: 3 }.path(), "/get/oa_set");
    assert_eq!(Request::ListTimes.path(), "/get/listTime");
    assert_eq!(Request::GetTime { time_id: 81 }.path(), "/get/getTime/81");
    assert_eq!(Request::SetTime { time_id: 81, time: tag("1") }.path(), "/get/setTime");
    assert_eq!(Request::ClanInfo { tag: tag("abc") }.path(), "/coc/clan_info/abc");
    assert_eq!(Request::ClansInfo { name: tag("n"), limit: tag("5") }.path(), "/coc/clans_info/n/5");
    assert_eq!(Request::WarLog { tag: tag("abc") }.path(), "/coc/war_log/abc");
}

fn body() -> RequestBody {
    RequestBody { id: None, time_id: None, name: None, tag: None, kind: None, status: None, time: None }
}

#[test]
fn request_bodies() {
    assert_eq!(Request::ListWaiting.body(), None);
    assert!(!Request::GetTime { time_id: 81 }.is_post());
    assert!(Request::ApproveAccount { id: 3 }.is_post());
    assert_eq!(
        Request::CreateAccount { name: tag("u"), tag: tag("q82u") }.body(),
        Some(RequestBody { name: Some(tag("u")), tag: Some(tag("#q82u")), kind: Some(2), status: Some(0), ..body() })
    );
    assert_eq!(
        Request::UpdateAccount { name: tag("u"), tag: tag("#q8#2u") }.body(),
        Some(RequestBody { name: Some(tag("u")), tag: Some(tag("#q82u")), kind: Some(2), ..body() })
    );
    assert_eq!(
        Request::SearchAccount { name: tag("u"), status: 1 }.body(),
        Some(RequestBody { name: Some(tag("u")), status: Some(1), ..body() })
    );
    assert_eq!(
        Request::ApproveAccount { id: 9 }.body(),
        Some(RequestBody { id: Some(9), status: Some(1), ..body() })
    );
    assert_eq!(
        Request::SetTime { time_id: 82, time: tag("9:00") }.body(),
        Some(RequestBody { time_id: Some(82), time: Some(tag("9:00")), ..body() })
    );
}
