use streamdeck::transfer::{IMAGE_REPORT_LEN, KEY_HEADER_LEN, LCD_HEADER_LEN};
use streamdeck::{paginate, PageTarget, PageWriter, ProtocolError};

fn payload(len: usize) -> Vec<u8> {
    (0..len).map(|i| (i % 251) as u8).collect()
}

#[test]
fn empty_payload_makes_one_final_page() {
    let pages = paginate(&PageTarget::Key(3), &vec![]);
    assert_eq!(pages.len(), 1);
    assert_eq!(&pages[0][..8], &[0x02, 0x07, 3, 1, 0, 0, 0, 0]);
    assert!(pages[0][8..].iter().all(|b| *b == 0));
}

#[test]
fn key_pages_follow_the_chunking_rule() {
    let budget = IMAGE_REPORT_LEN - KEY_HEADER_LEN;
    let data = payload(2 * budget + 10);
    let pages = paginate(&PageTarget::Key(5), &data);
    assert_eq!(pages.len(), 3);
    for (index, page) in pages.iter().enumerate() {
        assert_eq!(page.len(), IMAGE_REPORT_LEN);
        assert_eq!(page[0], 0x02);
        assert_eq!(page[1], 0x07);
        assert_eq!(page[2], 5);
        assert_eq!(page[3], if index == 2 { 1 } else { 0 });
        let len = page[4] as usize + 256 * page[5] as usize;
        assert_eq!(len, if index == 2 { 10 } else { budget });
        assert_eq!(page[6] as usize + 256 * page[7] as usize, index);
        assert_eq!(&page[8..8 + len], &data[index * budget..index * budget + len]);
    }
    assert!(pages[2][8 + 10..].iter().all(|b| *b == 0));
}

#[test]
fn exact_multiple_of_budget_has_full_last_page() {
    let budget = IMAGE_REPORT_LEN - KEY_HEADER_LEN;
    let pages = paginate(&PageTarget::Key(0), &payload(2 * budget));
    assert_eq!(pages.len(), 2);
    assert_eq!(pages[0][3], 0);
    assert_eq!(pages[1][3], 1);
    assert_eq!(pages[1][4] as usize + 256 * pages[1][5] as usize, budget);
}

#[test]
fn lcd_header_carries_region_and_trailer() {
    let target = PageTarget::LcdRegion { x: 300, y: 10, width: 800, height: 100 };
    let pages = paginate(&target, &payload(20));
    assert_eq!(pages.len(), 1);
    assert_eq!(
        &pages[0][..LCD_HEADER_LEN],
        &[0x02, 0x0c, 44, 1, 10, 0, 32, 3, 100, 0, 1, 0, 0, 20, 0, 0]
    );
}

#[test]
fn page_index_is_little_endian_past_255() {
    let budget = IMAGE_REPORT_LEN - LCD_HEADER_LEN;
    let target = PageTarget::LcdRegion { x: 0, y: 0, width: 1, height: 1 };
    let pages = paginate(&target, &payload(256 * budget + 1));
    assert_eq!(pages.len(), 257);
    assert_eq!(&pages[256][11..13], &[0, 1]);
    assert_eq!(pages[256][10], 1);
    assert_eq!(pages[255][10], 0);
}

#[test]
fn page_writer_hands_out_pages_in_order() {
    let pages = vec![vec![1u8], vec![2u8], vec![3u8]];
    let mut writer = PageWriter::new(pages);
    assert_eq!(writer.next_page(), Some(&vec![1u8]));
    assert_eq!(writer.record(true), Ok(false));
    assert_eq!(writer.next_page(), Some(&vec![2u8]));
    assert_eq!(writer.record(true), Ok(false));
    assert_eq!(writer.record(true), Ok(true));
    assert_eq!(writer.next_page(), None);
    assert_eq!(writer.sent(), 3);
}

#[test]
fn failed_page_write_is_a_partial_write() {
    let mut writer = PageWriter::new(vec![vec![1u8], vec![2u8], vec![3u8]]);
    assert_eq!(writer.record(true), Ok(false));
    assert_eq!(writer.record(false), Err(ProtocolError::PartialWrite(1)));
    assert_eq!(writer.sent(), 1);
}
