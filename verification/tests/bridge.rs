use crossbeam_channel::{bounded, unbounded};
use rust_editor::abi::{encode_len, get_buffer_line_len};
use rust_editor::bridge::{
    ask_add_highlight, ask_clear_highlights, ask_line_data, ask_line_len, ask_set_line, post,
    settled, PluginEffect, QUERY_TIMEOUT_MS,
};
use std::time::{Duration, Instant};

#[test]
fn the_query_timeout_is_half_a_second() {
    assert_eq!(QUERY_TIMEOUT_MS, 500);
}

#[test]
fn a_query_settles_on_the_answer_that_a_reply_holds() {
    assert_eq!(settled(Some(Some(7usize))), Some(7));
    assert_eq!(settled(Some(Some("int x;".to_string()))), Some("int x;".to_string()));
    assert_eq!(settled::<usize>(Some(None)), None);
    assert_eq!(settled::<usize>(None), None);
}

#[test]
fn a_notification_is_queued_without_waiting() {
    let (effects, queue) = unbounded();
    let started = Instant::now();
    assert!(post(&effects, PluginEffect::Echo("hi".to_string())));
    assert!(started.elapsed() < Duration::from_millis(400));
    match queue.try_recv() {
        Ok(PluginEffect::Echo(message)) => assert_eq!(message, "hi"),
        _ => panic!("no echo was queued"),
    }
}

#[test]
fn a_notification_for_nobody_reports_that() {
    let (effects, queue) = unbounded();
    drop(queue);
    assert!(!post(&effects, PluginEffect::Echo("hi".to_string())));
}

#[test]
fn a_query_that_is_never_answered_fails_after_the_timeout() {
    let (effects, queue) = unbounded();
    let started = Instant::now();
    assert_eq!(ask_line_len(&effects, 0), None);
    let waited = started.elapsed();
    assert!(waited >= Duration::from_millis(450));
    assert!(waited < Duration::from_millis(3000));
    match queue.try_recv() {
        Ok(PluginEffect::GetBufferLineLen { line_num, .. }) => assert_eq!(line_num, 0),
        _ => panic!("no query was queued"),
    }
}

#[test]
fn every_query_gives_up_when_nobody_answers() {
    let (effects, _queue) = unbounded();
    let started = Instant::now();
    assert_eq!(ask_line_data(&effects, 3), None);
    assert!(!ask_set_line(&effects, 0, "x".to_string()));
    assert!(!ask_add_highlight(&effects, 0, 0, 1, None, None));
    assert!(!ask_clear_highlights(&effects));
    assert!(started.elapsed() < Duration::from_millis(6000));
}

#[test]
fn a_query_to_nobody_fails_at_once() {
    let (effects, queue) = unbounded();
    drop(queue);
    let started = Instant::now();
    assert_eq!(ask_line_len(&effects, 0), None);
    assert_eq!(ask_line_data(&effects, 0), None);
    assert!(!ask_set_line(&effects, 0, "x".to_string()));
    assert!(!ask_add_highlight(&effects, 0, 0, 1, None, None));
    assert!(!ask_clear_highlights(&effects));
    assert!(started.elapsed() < Duration::from_millis(400));
}

#[test]
fn the_length_function_answers_minus_one_without_an_editor() {
    let (effects, _queue) = unbounded();
    assert_eq!(get_buffer_line_len(&effects, 0), -1);
    assert_eq!(get_buffer_line_len(&effects, -1), encode_len(None));
}

#[test]
fn a_negative_line_is_asked_for_as_an_index_beyond_any_buffer() {
    let (effects, queue) = unbounded();
    drop(get_buffer_line_len(&effects, -1));
    match queue.try_recv() {
        Ok(PluginEffect::GetBufferLineLen { line_num, .. }) => assert_eq!(line_num, usize::MAX),
        _ => panic!("no query was queued"),
    }
}

#[test]
fn a_full_queue_is_never_waited_for() {
    let (effects, queue) = bounded(1);
    assert!(post(&effects, PluginEffect::Echo("first".to_string())));
    let started = Instant::now();
    assert!(!post(&effects, PluginEffect::Echo("second".to_string())));
    assert!(started.elapsed() < Duration::from_millis(400));
    match queue.try_recv() {
        Ok(PluginEffect::Echo(message)) => assert_eq!(message, "first"),
        _ => panic!("the first message was not queued"),
    }
    assert!(queue.try_recv().is_err());
    let (effects, _queue) = bounded(0);
    let started = Instant::now();
    assert!(!post(&effects, PluginEffect::Echo("nobody waits".to_string())));
    assert!(started.elapsed() < Duration::from_millis(400));
}
