use cpu_monitor::event::Event;
use cpu_monitor::wire::{snapshot_message, snapshot_message_of};

fn texts(values: &[f32]) -> Vec<Vec<u8>> {
    values.iter().map(|v| serde_json::to_string(v).unwrap().into_bytes()).collect()
}

#[test]
fn frame_of_no_readings() {
    let message = snapshot_message(&Vec::new());
    assert_eq!(message, br#"{"type":"snapshot","cpus":[]}"#.to_vec());
}

#[test]
fn frame_of_one_reading() {
    let message = snapshot_message(&texts(&[12.5]));
    assert_eq!(message, br#"{"type":"snapshot","cpus":[12.5]}"#.to_vec());
}

#[test]
fn frame_of_several_readings_is_comma_separated() {
    let message = snapshot_message(&texts(&[0.0, 100.0, 37.25, 3.0]));
    assert_eq!(message, br#"{"type":"snapshot","cpus":[0.0,100.0,37.25,3.0]}"#.to_vec());
}

#[test]
fn frame_keeps_the_texts_as_given() {
    let numbers = vec![b"1".to_vec(), b"-2.5e3".to_vec(), b"null".to_vec()];
    let message = snapshot_message(&numbers);
    assert_eq!(message, br#"{"type":"snapshot","cpus":[1,-2.5e3,null]}"#.to_vec());
}

#[test]
fn frame_parses_as_the_tagged_object() {
    let values = [1.5f32, 99.0, 0.25, 42.0, 7.75];
    let message = snapshot_message(&texts(&values));
    let parsed: serde_json::Value = serde_json::from_slice(&message).unwrap();
    let object = parsed.as_object().unwrap();
    assert_eq!(object.len(), 2);
    assert_eq!(object.get("type").unwrap().as_str(), Some("snapshot"));
    let cpus = object.get("cpus").unwrap().as_array().unwrap();
    assert_eq!(cpus.len(), values.len());
    for (got, want) in cpus.iter().zip(values.iter()) {
        assert_eq!(got.as_f64().unwrap(), f64::from(*want));
    }
}

#[test]
fn frame_length_is_head_texts_separators_and_tail() {
    let numbers = texts(&[10.0, 20.0, 30.0]);
    let message = snapshot_message(&numbers);
    let body: usize = numbers.iter().map(|t| t.len()).sum();
    assert_eq!(message.len(), 27 + body + 2 + 2);
}

fn event_of(values: &[f32]) -> Event {
    Event::snapshot(values.iter().map(|v| v.to_bits()).collect())
}

#[test]
fn frame_of_an_event_takes_one_text_per_reading() {
    let values = [12.5f32, 0.0, 100.0];
    let message = snapshot_message_of(&event_of(&values), &texts(&values));
    assert_eq!(message, Some(br#"{"type":"snapshot","cpus":[12.5,0.0,100.0]}"#.to_vec()));
}

#[test]
fn frame_of_an_event_with_no_cores() {
    let message = snapshot_message_of(&event_of(&[]), &Vec::new());
    assert_eq!(message, Some(br#"{"type":"snapshot","cpus":[]}"#.to_vec()));
}

#[test]
fn frame_of_an_event_refuses_too_few_texts() {
    let event = event_of(&[1.0, 2.0, 3.0]);
    assert_eq!(snapshot_message_of(&event, &texts(&[1.0, 2.0])), None);
    assert_eq!(snapshot_message_of(&event, &Vec::new()), None);
}

#[test]
fn frame_of_an_event_refuses_too_many_texts() {
    let event = event_of(&[1.0]);
    assert_eq!(snapshot_message_of(&event, &texts(&[1.0, 2.0])), None);
    assert_eq!(snapshot_message_of(&event_of(&[]), &texts(&[1.0])), None);
}

#[test]
fn frame_of_an_event_is_the_frame_of_its_texts() {
    let values = [3.5f32, 7.25, 9.0, 64.0];
    let numbers = texts(&values);
    assert_eq!(
        snapshot_message_of(&event_of(&values), &numbers),
        Some(snapshot_message(&numbers))
    );
}
