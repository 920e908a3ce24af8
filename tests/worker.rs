use streamdeck::worker::{
    brightness_report, key_color_pages, key_data_pages, key_image_pages, lcd_image_pages,
    reset_report, KEY_IMAGE_SIZE,
};
use streamdeck::{
    solid_image, Action, Command, CommandError, DeckRequest, DeckResponse, DeviceWorker,
    InputEvent, Requestable, RgbFrame, Status,
};

#[test]
fn brightness_report_bytes() {
    let mut expected = vec![0x03, 0x08, 100];
    expected.resize(32, 0);
    assert_eq!(brightness_report(100), expected);
}

#[test]
fn reset_report_bytes() {
    let mut expected = vec![0x03, 0x02];
    expected.resize(32, 0);
    assert_eq!(reset_report(), expected);
}

#[test]
fn solid_image_fills_every_pixel() {
    let frame = solid_image(2, 3, [1, 2, 3]);
    assert_eq!(frame.width(), 2);
    assert_eq!(frame.height(), 3);
    assert_eq!(frame.pixels().len(), 18);
    assert!(frame.pixels().chunks(3).all(|p| p == [1, 2, 3]));
}

#[test]
fn frame_needs_three_bytes_per_pixel() {
    assert!(RgbFrame::new(2, 2, vec![0; 12]).is_some());
    assert!(RgbFrame::new(2, 2, vec![0; 11]).is_none());
}

#[test]
fn key_image_is_sent_as_jpeg() {
    let frame = solid_image(KEY_IMAGE_SIZE, KEY_IMAGE_SIZE, [200, 10, 10]);
    let pages = key_image_pages(4, &frame).unwrap();
    assert!(!pages.is_empty());
    let first = &pages[0];
    assert_eq!(&first[..3], &[0x02, 0x07, 4]);
    assert_eq!(&first[8..10], &[0xFF, 0xD8]);
    let last = pages.last().unwrap();
    assert_eq!(last[3], 1);
}

#[test]
fn key_color_matches_key_image_of_solid_frame() {
    let color = [12, 34, 56];
    let frame = solid_image(KEY_IMAGE_SIZE, KEY_IMAGE_SIZE, color);
    assert_eq!(key_color_pages(1, color), key_image_pages(1, &frame));
}

#[test]
fn key_index_past_the_last_key_is_refused() {
    let frame = solid_image(KEY_IMAGE_SIZE, KEY_IMAGE_SIZE, [0, 0, 0]);
    assert_eq!(key_image_pages(8, &frame), Err(CommandError::InvalidButtonIndex(8)));
    assert_eq!(key_color_pages(9, [0, 0, 0]), Err(CommandError::InvalidButtonIndex(9)));
    assert_eq!(key_data_pages(200, &vec![1]), Err(CommandError::InvalidButtonIndex(200)));
}

#[test]
fn key_image_of_wrong_size_is_refused() {
    let frame = solid_image(72, 72, [0, 0, 0]);
    assert_eq!(key_image_pages(0, &frame), Err(CommandError::InvalidImageSize(72, 72)));
}

#[test]
fn lcd_position_outside_strip_is_refused() {
    let frame = solid_image(10, 10, [0, 0, 0]);
    assert_eq!(lcd_image_pages(801, 0, &frame), Err(CommandError::InvalidLcdPosition(801, 0)));
    assert_eq!(lcd_image_pages(0, 101, &frame), Err(CommandError::InvalidLcdPosition(0, 101)));
    assert!(lcd_image_pages(800, 100, &frame).is_ok());
}

#[test]
fn empty_lcd_image_fails_to_encode() {
    let frame = solid_image(0, 10, [0, 0, 0]);
    assert_eq!(lcd_image_pages(0, 0, &frame), Err(CommandError::EncodingFailed));
}

#[test]
fn lcd_image_header_names_the_region() {
    let frame = solid_image(50, 50, [0, 255, 0]);
    let pages = lcd_image_pages(725, 25, &frame).unwrap();
    assert!(!pages.is_empty());
    assert_eq!(&pages[0][..10], &[0x02, 0x0c, 0xD5, 2, 25, 0, 50, 0, 50, 0]);
    assert_eq!(&pages[0][16..18], &[0xFF, 0xD8]);
}

#[test]
fn oversized_payload_is_refused() {
    let data = vec![0u8; 65536 * 1016 + 1];
    assert_eq!(key_data_pages(0, &data), Err(CommandError::ImageTooLarge(65536 * 1016 + 1)));
}

#[test]
fn worker_plans_commands_and_stops_on_shutdown() {
    let mut worker = DeviceWorker::new();
    assert_eq!(worker.status(), Status::Connected);
    assert_eq!(
        worker.handle_command(Command::SetBrightness(40)),
        Ok(Action::SendFeature(brightness_report(40)))
    );
    assert_eq!(
        worker.handle_command(Command::SetButtonImageData(2, vec![9, 9])),
        Ok(Action::WritePages(key_data_pages(2, &vec![9, 9]).unwrap()))
    );
    assert_eq!(
        worker.handle_command(Command::SetLcdText("Hello".to_string())),
        Ok(Action::RenderLcdText("Hello".to_string()))
    );
    assert_eq!(worker.handle(Command::Shutdown), Ok(Action::Stop(reset_report())));
    assert_eq!(worker.status(), Status::Disconnected);
    assert_eq!(worker.handle_command(Command::SetBrightness(1)), Err(CommandError::Stopped));
}

#[test]
fn worker_answers_requests() {
    let mut worker = DeviceWorker::new();
    assert_eq!(worker.handle_request(DeckRequest::Ping), Ok((None, DeckResponse::Pong)));
    assert_eq!(
        worker.handle_request(DeckRequest::SetBrightness(50)),
        Ok((Some(Action::SendFeature(brightness_report(50))), DeckResponse::Success))
    );
}

#[test]
fn worker_decodes_reports_and_reports_loss() {
    let mut worker = DeviceWorker::new();
    let raw = [1, 0, 0, 0, 0, 1, 0, 0, 0, 0, 0, 0, 0, 0];
    assert_eq!(worker.handle_report(raw), Ok(vec![InputEvent::ButtonPressed(1)]));
    assert!(worker.input().button_held(1));
    assert_eq!(worker.device_lost(), InputEvent::Disconnected);
    assert_eq!(worker.status(), Status::Disconnected);
}

#[test]
fn brightness_above_one_hundred_is_refused() {
    let mut worker = DeviceWorker::new();
    assert_eq!(
        worker.handle_command(Command::SetBrightness(101)),
        Err(CommandError::InvalidBrightness(101))
    );
    assert_eq!(
        worker.handle_request(DeckRequest::SetBrightness(255)),
        Err(CommandError::InvalidBrightness(255))
    );
    assert_eq!(worker.status(), Status::Connected);
}

#[test]
fn read_failure_ends_the_worker_only_when_the_handle_is_gone() {
    let mut worker = DeviceWorker::new();
    assert_eq!(worker.handle_read_failure(true), None);
    assert_eq!(worker.status(), Status::Connected);
    assert_eq!(worker.handle_read_failure(false), Some(InputEvent::Disconnected));
    assert_eq!(worker.status(), Status::Disconnected);
}
