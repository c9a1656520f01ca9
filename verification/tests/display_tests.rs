use a2a_cli::{
    AgentArtifact, AgentMessage, AgentPart, AgentTask, Output, SendResult, StreamEvent,
    display_result, part_text, stream_event,
};

fn msg(t: &str) -> AgentMessage {
    AgentMessage { parts: vec![AgentPart::Text(t.to_string())] }
}

fn task(terminal: bool) -> AgentTask {
    AgentTask {
        id: "t1".to_string(),
        context_id: "c1".to_string(),
        state: "Completed".to_string(),
        terminal,
        message: Some(msg("hi")),
        artifacts: Some(vec![
            AgentArtifact { name: Some("report".to_string()), parts: vec![AgentPart::File] },
            AgentArtifact { name: None, parts: vec![AgentPart::Data("{}".to_string())] },
        ]),
    }
}

#[test]
fn task_reply_sets_context_and_shows_everything() {
    let mut ctx = None;
    let out = display_result(&SendResult::Task(task(true)), &mut ctx, 2);
    assert_eq!(ctx, Some("c1".to_string()));
    assert_eq!(
        out,
        vec![
            Output::AgentPrompt,
            Output::Part { part: AgentPart::Text("hi".to_string()), inline: false },
            Output::ArtifactName("report".to_string()),
            Output::Part { part: AgentPart::File, inline: false },
            Output::Part { part: AgentPart::Data("{}".to_string()), inline: false },
            Output::Meta {
                task_id: "t1".to_string(),
                context_id: "c1".to_string(),
                state: "Completed".to_string(),
            },
            Output::EndLine,
        ]
    );
}

#[test]
fn quiet_reply_has_no_prompt_or_meta() {
    let mut ctx = Some("old".to_string());
    let out = display_result(&SendResult::Message(msg("yo")), &mut ctx, 0);
    assert_eq!(ctx, Some("old".to_string()));
    assert_eq!(
        out,
        vec![Output::Part { part: AgentPart::Text("yo".to_string()), inline: false }, Output::EndLine]
    );
    let out = display_result(&SendResult::Task(task(false)), &mut ctx, 1);
    assert_eq!(ctx, Some("c1".to_string()));
    assert_eq!(out[0], Output::AgentPrompt);
    assert!(!out.iter().any(|o| matches!(o, Output::Meta { .. })));
}

#[test]
fn stream_events_track_context() {
    let mut ctx = None;
    let out = stream_event(
        &StreamEvent::StatusUpdate { context_id: "c9".to_string(), message: Some(msg("a")), terminal: true },
        &mut ctx,
    );
    assert_eq!(ctx, Some("c9".to_string()));
    assert_eq!(
        out,
        vec![
            Output::Part { part: AgentPart::Text("a".to_string()), inline: true },
            Output::Flush,
            Output::EndLine,
        ]
    );
    let out = stream_event(&StreamEvent::Message(msg("b")), &mut ctx);
    assert_eq!(ctx, Some("c9".to_string()));
    assert_eq!(out, vec![Output::Part { part: AgentPart::Text("b".to_string()), inline: true }, Output::Flush]);
    let out = stream_event(
        &StreamEvent::ArtifactUpdate(AgentArtifact { name: Some("f".to_string()), parts: vec![] }),
        &mut ctx,
    );
    assert_eq!(ctx, Some("c9".to_string()));
    assert_eq!(out, vec![Output::ArtifactTag("f".to_string()), Output::Flush, Output::Flush]);
    let out = stream_event(&StreamEvent::Task(task(false)), &mut ctx);
    assert_eq!(ctx, Some("c1".to_string()));
    assert_eq!(
        out,
        vec![Output::Part { part: AgentPart::Text("hi".to_string()), inline: true }, Output::Flush]
    );
}

#[test]
fn part_texts() {
    assert_eq!(part_text(&AgentPart::File), "[file]");
    assert_eq!(part_text(&AgentPart::Text("t".to_string())), "t");
    assert_eq!(part_text(&AgentPart::Data("{\"a\": 1}".to_string())), "{\"a\": 1}");
}
