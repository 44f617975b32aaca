use cors_fixture::cors::Envelope;
use cors_fixture::injector::FaultSwitches;
use cors_fixture::outcome::Reply;
use cors_fixture::pipeline::{respond, serve};

fn reply(status: u16, body: &str) -> Reply {
    Reply { status, body: String::from(body) }
}

#[test]
fn get_200_answers_200() {
    let switches = FaultSwitches::new(false, false);
    assert_eq!(respond(&switches, Some("200")), reply(200, "200 OK"));
}

#[test]
fn get_500_answers_500() {
    let switches = FaultSwitches::new(false, false);
    assert_eq!(respond(&switches, Some("500")), reply(500, "500 Internal Server Error"));
}

#[test]
fn get_root_answers_400_with_the_usage() {
    let switches = FaultSwitches::new(false, false);
    let answer = respond(&switches, None);
    assert_eq!(answer.status, 400);
    assert!(answer.body.contains("/200"));
    assert!(answer.body.contains("/500"));
    assert_eq!(answer.body, "usage: /200 or /500.\r\nCheck for CORS header.\r\n");
}

#[test]
fn get_anything_answers_404() {
    let switches = FaultSwitches::new(false, false);
    assert_eq!(respond(&switches, Some("anything")), reply(404, "404 Not Found"));
}

#[test]
fn prebreak_answers_500_with_its_message() {
    let switches = FaultSwitches::new(true, false);
    assert_eq!(respond(&switches, Some("200")), reply(500, "Pre-Injection Break"));
}

#[test]
fn postbreak_answers_500_with_its_message() {
    let switches = FaultSwitches::new(false, true);
    assert_eq!(respond(&switches, Some("200")), reply(500, "Post-Injection Break"));
}

#[test]
fn both_switches_answer_with_the_pre_break() {
    let switches = FaultSwitches::new(true, true);
    assert_eq!(respond(&switches, Some("200")), reply(500, "Pre-Injection Break"));
    assert_eq!(respond(&switches, None), reply(500, "Pre-Injection Break"));
}

#[test]
fn the_same_request_gets_the_same_reply() {
    for pre in [false, true] {
        for post in [false, true] {
            let switches = FaultSwitches::new(pre, post);
            for path in [None, Some("200"), Some("500"), Some("anything")] {
                let first = respond(&switches, path);
                for _ in 0..5 {
                    assert_eq!(respond(&switches, path), first);
                }
            }
        }
    }
}

#[test]
fn asking_in_between_leaves_no_trace() {
    let switches = FaultSwitches::new(false, false);
    let before = respond(&switches, Some("200"));
    let _ = respond(&switches, Some("500"));
    let _ = respond(&FaultSwitches::new(true, true), Some("200"));
    let _ = respond(&switches, None);
    assert_eq!(respond(&switches, Some("200")), before);
}

#[test]
fn every_status_is_one_of_four() {
    for pre in [false, true] {
        for post in [false, true] {
            let switches = FaultSwitches::new(pre, post);
            for path in [None, Some("200"), Some("500"), Some("anything"), Some("")] {
                let status = respond(&switches, path).status;
                assert!(matches!(status, 200 | 400 | 404 | 500));
            }
        }
    }
}

#[test]
fn every_response_allows_every_origin() {
    for pre in [false, true] {
        for post in [false, true] {
            let switches = FaultSwitches::new(pre, post);
            for path in [None, Some("200"), Some("500"), Some("anything"), Some("")] {
                let envelope = serve(&switches, path);
                assert_eq!(envelope.allow_origin, "*");
                assert_eq!(
                    envelope.allow_origin_header(),
                    ("Access-Control-Allow-Origin", "*")
                );
                assert_eq!(envelope.reply, respond(&switches, path));
            }
        }
    }
}

#[test]
fn each_status_leaves_under_the_header() {
    let switches = FaultSwitches::new(false, false);
    let served = [
        (None, 400),
        (Some("200"), 200),
        (Some("anything"), 404),
        (Some("500"), 500),
    ];
    for (path, status) in served {
        let envelope = serve(&switches, path);
        assert_eq!(envelope.reply.status, status);
        assert_eq!(envelope.allow_origin, "*");
    }
}

#[test]
fn serve_200_in_full() {
    let envelope = serve(&FaultSwitches::new(false, false), Some("200"));
    assert_eq!(envelope, Envelope { reply: reply(200, "200 OK"), allow_origin: "*" });
}

#[test]
fn serve_pre_break_in_full() {
    let envelope = serve(&FaultSwitches::new(true, true), Some("200"));
    assert_eq!(envelope, Envelope { reply: reply(500, "Pre-Injection Break"), allow_origin: "*" });
}

#[test]
fn the_same_request_is_served_the_same() {
    for pre in [false, true] {
        for post in [false, true] {
            let switches = FaultSwitches::new(pre, post);
            for path in [None, Some("200"), Some("500"), Some("anything")] {
                let first = serve(&switches, path);
                for _ in 0..5 {
                    assert_eq!(serve(&switches, path), first);
                }
            }
        }
    }
}
