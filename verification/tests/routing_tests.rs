use rollo::command_queue::{ControllerCommandBuffer, SchedulerCommandBuffer};
use rollo::network::{route_command, CommandTarget, Error as NetworkError};
use rollo::web_protocol::{Command, ControllerCommand, SchedulerCommand};

#[test]
fn scheduler_command_goes_to_the_scheduler() {
    let mut scheduler = SchedulerCommandBuffer::new();
    let mut controller = ControllerCommandBuffer::new();
    let r = route_command(Command::Scheduler(SchedulerCommand::Start), &mut scheduler, &mut controller);
    assert_eq!(r, Ok(CommandTarget::Scheduler));
    assert_eq!(scheduler.pop_item(), Ok(SchedulerCommand::Start));
    assert_eq!(controller.pop_item(), Err(NetworkError::BufferEmpty));
}

#[test]
fn controller_command_goes_to_the_controller() {
    let mut scheduler = SchedulerCommandBuffer::new();
    let mut controller = ControllerCommandBuffer::new();
    let r = route_command(Command::Controller(ControllerCommand::Home), &mut scheduler, &mut controller);
    assert_eq!(r, Ok(CommandTarget::Controller));
    assert_eq!(controller.pop_item(), Ok(ControllerCommand::Home));
    assert_eq!(scheduler.pop_item(), Err(NetworkError::BufferEmpty));
}

#[test]
fn full_buffer_refuses_the_command() {
    let mut scheduler = SchedulerCommandBuffer::new();
    let mut controller = ControllerCommandBuffer::new();
    let open = Command::Controller(ControllerCommand::Open);
    assert_eq!(route_command(open, &mut scheduler, &mut controller), Ok(CommandTarget::Controller));
    assert_eq!(route_command(open, &mut scheduler, &mut controller), Ok(CommandTarget::Controller));
    assert_eq!(route_command(open, &mut scheduler, &mut controller), Err(NetworkError::BufferFull));
    // the scheduler's buffer still has room
    assert_eq!(
        route_command(Command::Scheduler(SchedulerCommand::Stop), &mut scheduler, &mut controller),
        Ok(CommandTarget::Scheduler)
    );
    assert_eq!(controller.pop_item(), Ok(ControllerCommand::Open));
    assert_eq!(controller.pop_item(), Ok(ControllerCommand::Open));
    assert_eq!(controller.pop_item(), Err(NetworkError::BufferEmpty));
}
