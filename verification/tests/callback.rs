use miniblink::callback::{
    confirm_box_reply, continue_reply, cookie_result, create_view_reply, download_reply, handler_reply,
    load_url_begin_reply, prompt_box_reply, query_reply, registered_continue_reply, registered_create_view_reply,
    registered_load_url_begin_reply, registered_prompt_reply, CallbackOutcome,
};
use miniblink::content::ViewLinks;
use miniblink::params::JsQueryResult;

#[test]
fn continue_reply_goes_on_unless_refused() {
    assert_eq!(continue_reply(CallbackOutcome::Returned(true)), 1);
    assert_eq!(continue_reply(CallbackOutcome::Returned(false)), 0);
    assert_eq!(continue_reply(CallbackOutcome::Panicked), 1);
    assert_eq!(continue_reply(CallbackOutcome::Detached), 1);
}

#[test]
fn confirm_box_reply_confirms_only_on_true() {
    assert_eq!(confirm_box_reply(CallbackOutcome::Returned(true)), 1);
    assert_eq!(confirm_box_reply(CallbackOutcome::Returned(false)), 0);
    assert_eq!(confirm_box_reply(CallbackOutcome::Panicked), 0);
    assert_eq!(confirm_box_reply(CallbackOutcome::Detached), 0);
}

#[test]
fn download_reply_cases() {
    assert_eq!(download_reply(CallbackOutcome::Returned(true)), 1);
    assert_eq!(download_reply(CallbackOutcome::Returned(false)), 0);
    assert_eq!(download_reply(CallbackOutcome::Panicked), 0);
    assert_eq!(download_reply(CallbackOutcome::Detached), 1);
}

#[test]
fn load_url_begin_reply_cases() {
    assert_eq!(load_url_begin_reply(CallbackOutcome::Returned(true)), 1);
    assert_eq!(load_url_begin_reply(CallbackOutcome::Returned(false)), 0);
    assert_eq!(load_url_begin_reply(CallbackOutcome::Panicked), 1);
    assert_eq!(load_url_begin_reply(CallbackOutcome::Detached), 0);
}

#[test]
fn prompt_box_reply_cases() {
    let r = prompt_box_reply(CallbackOutcome::Returned(Some("typed".to_string())));
    assert_eq!(r.reject, 1);
    assert_eq!(r.text, Some("typed".to_string()));
    let r = prompt_box_reply(CallbackOutcome::Returned(None));
    assert_eq!(r.reject, 0);
    assert_eq!(r.text, None);
    let r = prompt_box_reply(CallbackOutcome::Panicked);
    assert_eq!(r.reject, 0);
    assert_eq!(r.text, None);
    let r = prompt_box_reply(CallbackOutcome::Detached);
    assert_eq!(r.reject, 0);
    assert_eq!(r.text, None);
}

#[test]
fn create_view_reply_cases() {
    assert_eq!(create_view_reply(CallbackOutcome::Returned(Some(4242))), 4242);
    assert_eq!(create_view_reply(CallbackOutcome::Returned(None)), 0);
    assert_eq!(create_view_reply(CallbackOutcome::Panicked), 0);
    assert_eq!(create_view_reply(CallbackOutcome::Detached), 1);
}

#[test]
fn query_reply_sends_only_returned_results() {
    let r = query_reply(CallbackOutcome::Returned(JsQueryResult {
        custom_message: 7,
        response: "hello, you".to_string(),
    }))
    .unwrap();
    assert_eq!(r.custom_message, 7);
    assert_eq!(r.response, "hello, you");
    assert!(query_reply(CallbackOutcome::Panicked).is_none());
    assert!(query_reply(CallbackOutcome::Detached).is_none());
}

#[test]
fn cookie_result_depends_on_state() {
    assert_eq!(cookie_result(0, "a=1".to_string()), Some("a=1".to_string()));
    assert_eq!(cookie_result(1, "a=1".to_string()), None);
    assert_eq!(cookie_result(-3, String::new()), None);
}

#[test]
fn registered_replies() {
    assert_eq!(registered_continue_reply(Some(true)), 1);
    assert_eq!(registered_continue_reply(Some(false)), 0);
    assert_eq!(registered_continue_reply(None), 1);
    assert_eq!(registered_load_url_begin_reply(Some(true)), 1);
    assert_eq!(registered_load_url_begin_reply(Some(false)), 0);
    assert_eq!(registered_load_url_begin_reply(None), 0);
    let r = registered_prompt_reply(Some(Some("x".to_string()))).unwrap();
    assert_eq!((r.reject, r.text), (1, Some("x".to_string())));
    let r = registered_prompt_reply(Some(None)).unwrap();
    assert_eq!((r.reject, r.text), (0, None));
    assert!(registered_prompt_reply(None).is_none());
}

#[test]
fn handler_reply_defaults_to_false() {
    assert!(handler_reply(Some(true)));
    assert!(!handler_reply(Some(false)));
    assert!(!handler_reply(None));
}

#[test]
fn view_links_record_children_once() {
    let mut links = ViewLinks::new();
    assert_eq!(links.parent(), None);
    assert!(!links.has_child(7));
    links.record_child_view(3, 7);
    assert_eq!(links.parent(), Some(3));
    assert!(links.has_child(7));
    links.record_child_view(3, 7);
    links.record_child_view(3, 9);
    assert!(links.has_child(7));
    assert!(links.has_child(9));
    assert!(!links.has_child(3));
    let d = ViewLinks::default();
    assert_eq!(d.parent(), None);
}

#[test]
fn registered_create_view_reply_cases() {
    assert_eq!(registered_create_view_reply(Some(77)), 77);
    assert_eq!(registered_create_view_reply(None), 0);
}
