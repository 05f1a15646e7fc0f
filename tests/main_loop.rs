use ratatui_elm::backend::termion::Event as TermionEvent;
use ratatui_elm::main_loop::{Instruction, MainLoop, Observation, Outcome, Phase};
use ratatui_elm::task::{Task, TaskKind};
use ratatui_elm::update::{Update, Wake};

use ratatui::termion::event::{Event as RawTermionEvent, Key};

fn started() -> MainLoop {
    let mut m = MainLoop::new();
    assert_eq!(m.instruction(), Instruction::InitDevice);
    assert_eq!(m.observe(Observation::Initialized), Instruction::Draw);
    assert_eq!(m.observe(Observation::Drawn), Instruction::Wait);
    m
}

#[test]
fn new_loop_sets_up_the_device_first() {
    let m = MainLoop::new();
    assert_eq!(m.phase(), Phase::Init);
    assert_eq!(m.instruction(), Instruction::InitDevice);
}

#[test]
fn first_draw_comes_before_any_input() {
    let mut m = MainLoop::new();
    // Inputs that arrive before the device is set up are not taken in.
    assert_eq!(m.observe(Observation::Message), Instruction::InitDevice);
    assert_eq!(m.observe(Observation::Initialized), Instruction::Draw);
    assert_eq!(m.observe(Observation::Message), Instruction::Draw);
    assert_eq!(m.observe(Observation::Drawn), Instruction::Wait);
    assert_eq!(m.observe(Observation::Message), Instruction::Dispatch(None));
}

#[test]
fn messages_render_only_when_asked() {
    // A subscription emits 'a' then 'b'; the update asks for a render on 'b' only.
    let mut m = started();
    let mut draws_after_start = Vec::new();
    for (c, should_render) in [('a', false), ('b', true)] {
        let wake: Wake<char, TermionEvent> = Wake::Message(c);
        let (obs, input) = wake.split();
        assert!(matches!(input, Some(Update::Message(x)) if x == c));
        assert_eq!(m.observe(obs), Instruction::Dispatch(None));
        let task: Task<()> = Task::Nothing;
        let (obs, work) = task.settle(should_render);
        assert!(work.is_none());
        let next = m.observe(obs);
        if next == Instruction::Draw {
            draws_after_start.push(c);
            assert_eq!(m.observe(Observation::Drawn), Instruction::Wait);
        } else {
            assert_eq!(next, Instruction::Wait);
        }
    }
    assert_eq!(draws_after_start, vec!['b']);
}

#[test]
fn resize_then_quit() {
    let mut m = started();
    let wake: Wake<(), TermionEvent> = Wake::Device(TermionEvent::Resize(80, 24));
    let (obs, input) = wake.split();
    assert_eq!(obs, Observation::DeviceEvent(Some((80, 24))));
    assert!(matches!(input, Some(Update::Terminal(TermionEvent::Resize(80, 24)))));
    assert_eq!(m.observe(obs), Instruction::Dispatch(Some((80, 24))));
    // The resize forces a draw although the update does not ask for one.
    let (obs, _) = Task::<()>::Nothing.settle(false);
    assert_eq!(m.observe(obs), Instruction::Draw);
    assert_eq!(m.observe(Observation::Drawn), Instruction::Wait);

    let quit_key: Wake<(), TermionEvent> =
        Wake::Device(TermionEvent::Termion(RawTermionEvent::Key(Key::Char('q'))));
    let (obs, _) = quit_key.split();
    assert_eq!(obs, Observation::DeviceEvent(None));
    assert_eq!(m.observe(obs), Instruction::Dispatch(None));
    let (obs, work) = Task::<()>::Quit.settle(false);
    assert!(work.is_none());
    assert_eq!(m.observe(obs), Instruction::Restore);
    assert_eq!(m.observe(Observation::Restored), Instruction::Exit(Outcome::Finished));
}

#[test]
fn ended_event_stream_terminates_with_open_channel() {
    let mut m = started();
    let wake: Wake<char, TermionEvent> = Wake::DeviceEnded;
    let (obs, input) = wake.split();
    assert!(input.is_none());
    assert_eq!(m.observe(obs), Instruction::Restore);
    // A message of a subscription that is still running is not taken in any more.
    assert_eq!(m.observe(Observation::Message), Instruction::Restore);
    assert_eq!(m.observe(Observation::Restored), Instruction::Exit(Outcome::Finished));
    assert_eq!(m.phase(), Phase::Terminated(Outcome::Finished));
}

#[test]
fn init_then_restore_without_iterations() {
    let mut m = started();
    assert_eq!(m.observe(Observation::ChannelClosed), Instruction::Restore);
    assert_eq!(m.observe(Observation::Restored), Instruction::Exit(Outcome::Finished));
    // A second report of a restore changes nothing.
    assert_eq!(m.observe(Observation::Restored), Instruction::Exit(Outcome::Finished));
}

#[test]
fn quit_with_render_hint_does_not_draw() {
    let mut m = started();
    assert_eq!(m.observe(Observation::Message), Instruction::Dispatch(None));
    assert_eq!(
        m.observe(Observation::Updated(TaskKind::Quit, true)),
        Instruction::Restore
    );
    assert_eq!(m.observe(Observation::Drawn), Instruction::Restore);
    assert_eq!(m.observe(Observation::Restored), Instruction::Exit(Outcome::Finished));
}

#[test]
fn failed_setup_exits_without_restore() {
    let mut m = MainLoop::new();
    assert_eq!(
        m.observe(Observation::InitFailed),
        Instruction::Exit(Outcome::SetupFailed)
    );
    assert_eq!(
        m.observe(Observation::Restored),
        Instruction::Exit(Outcome::SetupFailed)
    );
}

#[test]
fn failed_draw_restores_then_exits() {
    let mut m = MainLoop::new();
    assert_eq!(m.observe(Observation::Initialized), Instruction::Draw);
    assert_eq!(m.observe(Observation::DrawFailed), Instruction::Restore);
    assert_eq!(
        m.observe(Observation::Restored),
        Instruction::Exit(Outcome::RenderFailed)
    );
}

#[test]
fn device_error_ends_the_loop() {
    let mut m = started();
    let (obs, input) = Wake::<(), TermionEvent>::DeviceFailed.split();
    assert!(input.is_none());
    assert_eq!(obs, Observation::DeviceFailed);
    assert_eq!(m.observe(obs), Instruction::Restore);
}

#[test]
fn perform_task_is_spawned_and_loop_goes_on() {
    let mut m = started();
    assert_eq!(m.observe(Observation::Message), Instruction::Dispatch(None));
    let (obs, work) = Task::perform(7u32).settle(false);
    assert_eq!(obs, Observation::Updated(TaskKind::Perform, false));
    assert_eq!(work, Some(7));
    assert_eq!(m.observe(obs), Instruction::Wait);
    assert_eq!(m.observe(Observation::Message), Instruction::Dispatch(None));
    assert_eq!(
        m.observe(Observation::Updated(TaskKind::Perform, true)),
        Instruction::Draw
    );
}

#[test]
fn resize_without_render_hint_draws() {
    let mut m = started();
    assert_eq!(
        m.observe(Observation::DeviceEvent(Some((120, 40)))),
        Instruction::Dispatch(Some((120, 40)))
    );
    assert_eq!(
        m.observe(Observation::Updated(TaskKind::Nothing, false)),
        Instruction::Draw
    );
}

#[test]
fn event_without_resize_or_hint_waits() {
    let mut m = started();
    assert_eq!(
        m.observe(Observation::DeviceEvent(None)),
        Instruction::Dispatch(None)
    );
    assert_eq!(
        m.observe(Observation::Updated(TaskKind::Nothing, false)),
        Instruction::Wait
    );
}
