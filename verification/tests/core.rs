use bot_core::announce::{midnight_message, tea_time_message, tick_message, tick_message_now};
use bot_core::classify::{kelvin_to_celsius, payload, select, Band, PollResult};
use bot_core::clock::local_tick_time;
use bot_core::handler::{message_plan, DefaultHandler};
use bot_core::igdb::{search_body, IGDBSecret};
use bot_core::messages::{
    build_moved_message, confirmation_reply, links_body, links_title, move_message_plan,
    normalize_ticker,
};
use bot_core::rng::pick_index;
use bot_core::router::{delivered_destinations, route, InboundEvent, WatchRule};
use bot_core::schedule::{evaluate, fires_in_day, TriggerWindow};
use bot_core::text::{channel_mention, str_starts_with, u64_to_dec, user_mention};

#[test]
fn window_fires_only_inside_hour_and_tolerance() {
    let w = TriggerWindow::new(16, 1);
    assert!(evaluate(&w, 16, 0));
    assert!(!evaluate(&w, 16, 1));
    assert!(!evaluate(&w, 16, 59));
    assert!(!evaluate(&w, 15, 0));
    assert!(!evaluate(&w, 17, 0));
}

#[test]
fn window_with_wider_tolerance() {
    let w = TriggerWindow::new(8, 30);
    assert!(evaluate(&w, 8, 0));
    assert!(evaluate(&w, 8, 29));
    assert!(!evaluate(&w, 8, 30));
    assert!(!evaluate(&w, 9, 0));
}

#[test]
fn one_firing_tick_per_day_at_reference_cadence() {
    let w = TriggerWindow::new(16, 1);
    assert_eq!(fires_in_day(&w, 1), 1);
}

#[test]
fn one_firing_tick_per_day_other_windows_and_cadences() {
    assert_eq!(fires_in_day(&TriggerWindow::new(0, 1), 1), 1);
    assert_eq!(fires_in_day(&TriggerWindow::new(22, 1), 5), 1);
    assert_eq!(fires_in_day(&TriggerWindow::new(7, 10), 15), 1);
    assert_eq!(fires_in_day(&TriggerWindow::new(23, 60), 60), 1);
}

#[test]
fn classification_matches_reference_table() {
    // A dense walk across [-50, 50] degrees in steps of a quarter degree,
    // in centidegrees: every value lands in exactly the table's band.
    let mut t: i64 = -5000;
    while t <= 5000 {
        let b = select(&PollResult::Available(t));
        let expected = if t <= 0 {
            Band::Freezing
        } else if t < 2100 {
            Band::Mild
        } else if t <= 3000 {
            Band::Warm
        } else {
            Band::Hot
        };
        assert_eq!(b, expected);
        t += 25;
    }
    assert_eq!(select(&PollResult::Available(-500)), Band::Freezing);
    assert_eq!(select(&PollResult::Available(1000)), Band::Mild);
    assert_eq!(select(&PollResult::Available(2500)), Band::Warm);
    assert_eq!(select(&PollResult::Available(3500)), Band::Hot);
}

#[test]
fn classification_boundaries() {
    assert_eq!(select(&PollResult::Available(0)), Band::Freezing);
    assert_eq!(select(&PollResult::Available(1)), Band::Mild);
    assert_eq!(select(&PollResult::Available(2099)), Band::Mild);
    assert_eq!(select(&PollResult::Available(2100)), Band::Warm);
    assert_eq!(select(&PollResult::Available(3000)), Band::Warm);
    assert_eq!(select(&PollResult::Available(3001)), Band::Hot);
}

#[test]
fn band_payloads() {
    assert_eq!(payload(&Band::Freezing), "hot lava tea or chocolate");
    assert_eq!(payload(&Band::Mild), "tea");
    assert_eq!(payload(&Band::Warm), "iced tea");
    assert_eq!(payload(&Band::Hot), "super frozen tea");
}

#[test]
fn failed_poll_selects_the_default_payload() {
    let b = select(&PollResult::Unavailable);
    assert_eq!(b, Band::Mild);
    assert_eq!(payload(&b), "tea");
    assert_ne!(b, Band::Freezing);
    assert_ne!(b, Band::Warm);
    assert_ne!(b, Band::Hot);
}

#[test]
fn classification_is_pure() {
    let p = PollResult::Available(1234);
    assert_eq!(select(&p), select(&p));
    assert_eq!(
        payload(&select(&PollResult::Unavailable)),
        payload(&select(&PollResult::Unavailable))
    );
}

#[test]
fn kelvin_conversion_is_exact() {
    assert_eq!(kelvin_to_celsius(27315), 0);
    assert_eq!(kelvin_to_celsius(29415), 2100);
    assert_eq!(kelvin_to_celsius(0), -27315);
}

#[test]
fn tea_announcement_text() {
    assert_eq!(tea_time_message(&Band::Mild), "It's tea time!");
    assert_eq!(
        tea_time_message(&Band::Freezing),
        "It's hot lava tea or chocolate time!"
    );
}

#[test]
fn midnight_lines() {
    assert_eq!(
        midnight_message(0),
        "IL EST MINUIIIIIIIIT ET TOUUUUUUUUUUT VA BIEEEEEEEEEEEN"
    );
    assert_eq!(midnight_message(1), "ON EST AUJOURD'HUI");
}

#[test]
fn tick_decision_fires_tea_windows() {
    let r = tick_message(16, 0, &PollResult::Available(2500), 0);
    assert_eq!(r, Some("It's iced tea time!".to_string()));
    let r = tick_message(22, 0, &PollResult::Unavailable, 0);
    assert_eq!(r, Some("It's tea time!".to_string()));
}

#[test]
fn tick_decision_fires_midnight() {
    let r = tick_message(0, 0, &PollResult::Unavailable, 1);
    assert_eq!(r, Some("ON EST AUJOURD'HUI".to_string()));
}

#[test]
fn tick_decision_quiet_outside_windows() {
    assert_eq!(tick_message(12, 30, &PollResult::Available(-500), 0), None);
    assert_eq!(tick_message(16, 1, &PollResult::Available(-500), 0), None);
    assert_eq!(tick_message(23, 59, &PollResult::Unavailable, 1), None);
}

#[test]
fn live_tick_decision_stays_in_the_known_texts() {
    // Runs the real clock and the real random draw behind the library.
    let r = tick_message_now(&PollResult::Unavailable);
    if let Some(text) = r {
        let known = [
            "It's tea time!",
            "IL EST MINUIIIIIIIIT ET TOUUUUUUUUUUT VA BIEEEEEEEEEEEN",
            "ON EST AUJOURD'HUI",
        ];
        assert!(known.contains(&text.as_str()));
    }
}

#[test]
fn clock_reading_is_in_range() {
    let (h, m) = local_tick_time();
    assert!(h < 24);
    assert!(m < 60);
}

#[test]
fn random_pick_is_in_range() {
    for _ in 0..100 {
        assert!(pick_index(2) < 2);
    }
    assert_eq!(pick_index(1), 0);
}

#[test]
fn router_forwards_watched_link_to_every_destination_once() {
    let rule = WatchRule {
        sources: vec![10, 20, 30],
        destinations: vec![100, 200, 300],
    };
    let ev = InboundEvent {
        origin: 20,
        author: 42,
        content: "https://example.com".to_string(),
        attachment_count: 0,
    };
    let notice = route(&rule, &ev).expect("a watched link is forwarded");
    assert_eq!(notice.destinations, vec![100, 200, 300]);
    assert_eq!(
        notice.text,
        "<@42> vient de poster quelque chose sur <#20>"
    );
}

#[test]
fn router_ignores_unwatched_origin() {
    let rule = WatchRule {
        sources: vec![10, 20, 30],
        destinations: vec![100],
    };
    let ev = InboundEvent {
        origin: 99,
        author: 42,
        content: "https://example.com".to_string(),
        attachment_count: 3,
    };
    assert!(route(&rule, &ev).is_none());
}

#[test]
fn router_ignores_plain_text_without_attachment() {
    let rule = WatchRule {
        sources: vec![10],
        destinations: vec![100],
    };
    let ev = InboundEvent {
        origin: 10,
        author: 42,
        content: "just words, no link".to_string(),
        attachment_count: 0,
    };
    assert!(route(&rule, &ev).is_none());
}

#[test]
fn router_forwards_on_attachment_alone() {
    let rule = WatchRule {
        sources: vec![10],
        destinations: vec![100],
    };
    let ev = InboundEvent {
        origin: 10,
        author: 7,
        content: "".to_string(),
        attachment_count: 1,
    };
    let notice = route(&rule, &ev).expect("an attachment is forwarded");
    assert_eq!(notice.destinations, vec![100]);
}

#[test]
fn router_accepts_www_prefix() {
    let rule = WatchRule {
        sources: vec![10],
        destinations: vec![100],
    };
    let ev = InboundEvent {
        origin: 10,
        author: 7,
        content: "www.example.com".to_string(),
        attachment_count: 0,
    };
    assert!(route(&rule, &ev).is_some());
}

#[test]
fn notice_never_carries_the_content() {
    let rule = WatchRule {
        sources: vec![10],
        destinations: vec![100],
    };
    let ev = InboundEvent {
        origin: 10,
        author: 7,
        content: "https://example.com/secret-page".to_string(),
        attachment_count: 0,
    };
    let notice = route(&rule, &ev).unwrap();
    assert!(!notice.text.contains("secret-page"));
    assert!(!notice.text.contains("example.com"));
}

#[test]
fn fanout_partial_failure_reaches_the_others() {
    let plan = vec![100, 200, 300];
    let failed = vec![200];
    let delivered = delivered_destinations(&plan, &failed);
    assert_eq!(delivered, vec![100, 300]);
}

#[test]
fn fanout_no_failures_reaches_all_in_order() {
    let plan = vec![100, 200, 300];
    let delivered = delivered_destinations(&plan, &vec![]);
    assert_eq!(delivered, vec![100, 200, 300]);
}

#[test]
fn prefix_test_examples() {
    assert!(str_starts_with("http://x", "http"));
    assert!(str_starts_with("www.x", "www"));
    assert!(!str_starts_with("ftp://x", "http"));
    assert!(!str_starts_with("ht", "http"));
    assert!(str_starts_with("anything", ""));
}

#[test]
fn decimal_rendering() {
    assert_eq!(u64_to_dec(0), "0");
    assert_eq!(u64_to_dec(7), "7");
    assert_eq!(u64_to_dec(10), "10");
    assert_eq!(u64_to_dec(1234567890), "1234567890");
    assert_eq!(u64_to_dec(u64::MAX), "18446744073709551615");
}

#[test]
fn mention_markup() {
    assert_eq!(user_mention(5), "<@5>");
    assert_eq!(channel_mention(123456), "<#123456>");
}

#[test]
fn links_embed_texts() {
    assert_eq!(links_title(), "Links");
    let body = links_body();
    assert!(body.starts_with("\n**Twitch:**\n- Star and Grey: https://www.twitch.tv/star_and_grey\n"));
    assert!(body.contains("**Youtube:**\n- Grey Monster: https://www.youtube.com/channel/UCFsWs9C4oDm_JMtmpLFX7eQ\n"));
    assert!(body.contains("__Playlists Youtube Grey Monster:__\n"));
    assert!(body.contains("[Path of Exile](https://www.youtube.com/playlist?list=PLqxDFE_3dqg4UXiu1jTqLSB0PaN8o7482)\n"));
    assert!(body.ends_with("[Nioh 2](https://youtube.com/playlist?list=PLqxDFE_3dqg6bhDcYdDHBUb8jkoQlBeiO)"));
}

#[test]
fn moved_message_copy() {
    assert_eq!(
        build_moved_message("hello there", "Someone"),
        "hello there\n(Original Poster: Someone)\n"
    );
}

#[test]
fn move_between_channels_only() {
    assert!(move_message_plan(1, 2));
    assert!(!move_message_plan(5, 5));
}

#[test]
fn confirmation_replies() {
    assert_eq!(
        confirmation_reply(true),
        "You're already a confirmed member, congratulations."
    );
    assert_eq!(confirmation_reply(false), "You are now confirmed.");
}

#[test]
fn ticker_normalization() {
    assert_eq!(normalize_ticker("$AAPL"), Some("AAPL".to_string()));
    assert_eq!(normalize_ticker("AAPL"), Some("AAPL".to_string()));
    assert_eq!(normalize_ticker("$"), None);
    assert_eq!(normalize_ticker(""), None);
}

#[test]
fn handler_plan_from_message_flags() {
    let plan = message_plan(true, false);
    assert!(plan.refresh_sticky);
    assert!(plan.reply_to_question);
    let plan = message_plan(false, false);
    assert!(plan.refresh_sticky);
    assert!(!plan.reply_to_question);
    let plan = message_plan(true, true);
    assert!(!plan.refresh_sticky);
    assert!(!plan.reply_to_question);
    let _h = DefaultHandler::new();
}

#[test]
fn igdb_search_body_text() {
    assert_eq!(
        search_body("Hollow Knight"),
        "search Hollow Knight;\nfields name,platforms.name"
    );
}

#[test]
fn igdb_secret_default() {
    let s = IGDBSecret::default();
    assert_eq!(s.client_id, "");
    assert_eq!(s.client_secret, "");
    assert_eq!(s.grant_type, "client_credentials");
}
