use redirect_service::handler::{client_ip, plan_redirect, user_agent, Reply};
use redirect_service::models::AnalyticsEvent;
use redirect_service::resolver::{resolve, resolve_row, LinkRow, StoreError};

fn row(url: &str, active: bool) -> Option<LinkRow> {
    Some(LinkRow { original_url: url.to_string(), is_active: active })
}

#[test]
fn inactive_and_absent_codes_resolve_to_nothing() {
    assert_eq!(resolve_row(row("https://example.com", false)), None);
    assert_eq!(resolve_row(None), None);
}

#[test]
fn active_code_resolves_to_stored_url() {
    assert_eq!(resolve_row(row("https://example.com/a?b=c", true)), Some("https://example.com/a?b=c".to_string()));
}

#[test]
fn store_errors_pass_through() {
    let e = StoreError { detail: "connection refused".to_string() };
    assert_eq!(resolve(Err(e.clone())), Err(e));
}

#[test]
fn active_link_redirects_with_302() {
    let lookup = resolve(Ok(row("https://example.com", true)));
    let plan = plan_redirect("abc", lookup, Some("curl/8"), Some("1.2.3.4"), "2024-01-01T00:00:00+00:00");
    assert_eq!(plan.reply, Reply::Redirect("https://example.com".to_string()));
    assert_eq!(plan.reply.status(), 302);
    assert_eq!(
        plan.analytics,
        Some(AnalyticsEvent {
            short_code: "abc".to_string(),
            original_url: "https://example.com".to_string(),
            timestamp: "2024-01-01T00:00:00+00:00".to_string(),
            user_agent: "curl/8".to_string(),
            ip_address: "1.2.3.4".to_string(),
        })
    );
}

#[test]
fn inactive_link_gives_404() {
    let lookup = resolve(Ok(row("https://example.com", false)));
    let plan = plan_redirect("xyz", lookup, None, None, "t");
    assert_eq!(plan.reply, Reply::NotFound);
    assert_eq!(plan.reply.status(), 404);
    assert_eq!(plan.reply.body(), "Link not found");
    assert_eq!(plan.analytics, None);
}

#[test]
fn unreachable_store_gives_500() {
    let lookup = resolve(Err(StoreError { detail: "timeout".to_string() }));
    let plan = plan_redirect("abc", lookup, None, None, "t");
    assert_eq!(plan.reply, Reply::DatabaseError);
    assert_eq!(plan.reply.status(), 500);
    assert_eq!(plan.reply.body(), "Database Error");
    assert_eq!(plan.analytics, None);
}

#[test]
fn client_ip_takes_the_leading_token() {
    assert_eq!(client_ip(Some("1.2.3.4, 5.6.7.8")), "1.2.3.4");
    assert_eq!(client_ip(Some("1.2.3.4:5678")), "1.2.3.4");
    assert_eq!(client_ip(Some("9.9.9.9")), "9.9.9.9");
    assert_eq!(client_ip(None), "0.0.0.0");
    assert_eq!(client_ip(Some("")), "0.0.0.0");
    assert_eq!(client_ip(Some(",1.2.3.4")), "0.0.0.0");
}

#[test]
fn user_agent_defaults_to_unknown() {
    assert_eq!(user_agent(None), "unknown");
    assert_eq!(user_agent(Some("Mozilla/5.0")), "Mozilla/5.0");
}

#[test]
fn defaults_reach_the_analytics_event() {
    let plan = plan_redirect("abc", Ok(Some("https://e.org".to_string())), None, None, "t");
    let ev = plan.analytics.unwrap();
    assert_eq!(ev.user_agent, "unknown");
    assert_eq!(ev.ip_address, "0.0.0.0");
    assert_eq!(plan.reply.body(), "");
}

#[test]
fn reply_ignores_request_metadata() {
    let a = plan_redirect("abc", Ok(Some("https://example.com".to_string())), Some("ua-1"), Some("1.1.1.1"), "t1");
    let b = plan_redirect("abc", Ok(Some("https://example.com".to_string())), None, Some("bad"), "t2");
    assert_eq!(a.reply, b.reply);
    assert_ne!(a.analytics, b.analytics);
}
