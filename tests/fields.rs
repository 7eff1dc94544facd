use mos_hardware::bits::{extract, insert, low_bits};
use mos_hardware::c64;
use mos_hardware::c64::CIA1ControlFlags;
use mos_hardware::memory::Memory;
use mos_hardware::mega65;
use mos_hardware::view::{Field, Group, RegisterView};
use mos_hardware::{cia, sid, vic2};

#[test]
fn low_bits_values() {
    assert_eq!(low_bits(1), 0x01);
    assert_eq!(low_bits(4), 0x0f);
    assert_eq!(low_bits(7), 0x7f);
    assert_eq!(low_bits(8), 0xff);
}

#[test]
fn extract_reads_shifted_field() {
    assert_eq!(extract(0b1011_0110, 4, 4), 0b1011);
    assert_eq!(extract(0b1011_0110, 0, 4), 0b0110);
    assert_eq!(extract(0b1011_0110, 1, 2), 0b11);
    assert_eq!(extract(0xab, 0, 8), 0xab);
}

#[test]
fn insert_keeps_other_bits() {
    assert_eq!(insert(0xff, 4, 4, 0x3), 0x3f);
    assert_eq!(insert(0x00, 4, 4, 0xa), 0xa0);
    assert_eq!(insert(0b1010_1010, 2, 3, 0b101), 0b1011_0110);
    assert_eq!(insert(0x12, 0, 8, 0x34), 0x34);
}

#[test]
fn field_round_trip_on_sub_field() {
    let mut mem = Memory::new();
    let vic = c64::vic_ii();
    let border = vic2::border_color();
    mem.poke(0xd020, 0xf0);
    vic.write(&mut mem, border, 0x0e);
    assert_eq!(vic.read(&mem, border), 0x0e);
    assert_eq!(mem.peek(0xd020), 0xfe);
    assert_eq!(mem.peek(0xd021), 0x00);
    assert_eq!(mem.peek(0xd01f), 0x00);
}

#[test]
fn field_round_trip_on_high_nibble() {
    let mut mem = Memory::new();
    let s = c64::sid();
    mem.poke(0xd418, 0x0f);
    s.write(&mut mem, sid::filter_mode(), 0x5);
    assert_eq!(s.read(&mem, sid::filter_mode()), 0x5);
    assert_eq!(s.read(&mem, sid::volume()), 0xf);
    assert_eq!(mem.peek(0xd418), 0x5f);
    s.write(&mut mem, sid::volume(), 0x3);
    assert_eq!(mem.peek(0xd418), 0x53);
}

#[test]
fn whole_byte_field() {
    let mut mem = Memory::new();
    let cia1 = c64::cia1();
    cia1.write(&mut mem, cia::control_a(), 0x81);
    assert_eq!(cia1.read(&mem, cia::control_a()), 0x81);
    assert_eq!(mem.peek(0xdc0e), 0x81);
    assert_eq!(mem.peek(0xdc0f), 0x00);
}

#[test]
fn memory_starts_zeroed_and_keeps_writes() {
    let mut mem = Memory::new();
    assert_eq!(mem.peek(0x0000), 0);
    assert_eq!(mem.peek(0xffff), 0);
    mem.poke(0xffff, 0x42);
    assert_eq!(mem.peek(0xffff), 0x42);
    assert_eq!(mem.peek(0xfffe), 0);
}

#[test]
fn flags_set_and_clear() {
    let v = CIA1ControlFlags::from_bits_truncate(0b1010_0101);
    let mut f = v;
    f.remove(CIA1ControlFlags::start());
    assert_eq!(f.bits(), 0b1010_0100);
    f.insert(CIA1ControlFlags::start());
    assert_eq!(f.bits(), 0b1010_0101);
    assert!(f.contains(CIA1ControlFlags::start()));
    let mut g = v;
    g.insert(CIA1ControlFlags::pbon());
    assert_eq!(g.bits(), 0b1010_0111);
    g.remove(CIA1ControlFlags::pbon());
    assert_eq!(g.bits(), 0b1010_0101);
    assert!(!g.contains(CIA1ControlFlags::pbon()));
}

#[test]
fn flags_toggle_set_and_compose() {
    let mut f = CIA1ControlFlags::empty();
    assert!(f.is_empty());
    f.toggle(CIA1ControlFlags::fifty_hz_rtc());
    assert_eq!(f.bits(), 0x80);
    f.toggle(CIA1ControlFlags::fifty_hz_rtc());
    assert_eq!(f.bits(), 0x00);
    f.set(CIA1ControlFlags::runmode(), true);
    assert_eq!(f.bits(), 0x08);
    f.set(CIA1ControlFlags::runmode(), false);
    assert_eq!(f.bits(), 0x00);
    let u = CIA1ControlFlags::start().union(CIA1ControlFlags::force_load());
    assert_eq!(u.bits(), 0x11);
    assert_eq!(u.intersection(CIA1ControlFlags::start()).bits(), 0x01);
    assert_eq!(u.difference(CIA1ControlFlags::start()).bits(), 0x10);
    assert_eq!(u.complement().bits(), 0xee);
    assert!(u.intersects(CIA1ControlFlags::force_load()));
    assert!(!u.intersects(CIA1ControlFlags::inmode()));
    assert_eq!(CIA1ControlFlags::all().bits(), 0xff);
}

#[test]
fn flags_are_distinct_bits() {
    let flags = [
        CIA1ControlFlags::start(),
        CIA1ControlFlags::pbon(),
        CIA1ControlFlags::outmode(),
        CIA1ControlFlags::runmode(),
        CIA1ControlFlags::force_load(),
        CIA1ControlFlags::inmode(),
        CIA1ControlFlags::serial_output(),
        CIA1ControlFlags::fifty_hz_rtc(),
    ];
    let mut acc = CIA1ControlFlags::empty();
    for f in flags.iter() {
        assert_eq!(f.bits().count_ones(), 1);
        assert!(!acc.intersects(*f));
        acc = acc.union(*f);
    }
    assert_eq!(acc.bits(), 0xff);
}

#[test]
fn flags_in_control_register() {
    let mut mem = Memory::new();
    let cia1 = c64::cia1();
    let f = CIA1ControlFlags::start().union(CIA1ControlFlags::runmode());
    cia1.write(&mut mem, cia::control_a(), f.bits());
    let back = CIA1ControlFlags::from_bits_truncate(cia1.read(&mem, cia::control_a()));
    assert_eq!(back, f);
}

#[test]
fn sub_block_sentinel_leaves_neighbours() {
    let mut mem = Memory::new();
    let s = c64::sid();
    let voices = sid::voices();
    let sentinel: Vec<u8> = vec![0xa1, 0xa2, 0xa3, 0xa4, 0xa5, 0xa6, 0xa7];
    s.write_sub_block(&mut mem, voices, 1, &sentinel);
    assert_eq!(s.read_sub_block(&mem, voices, 1), sentinel);
    assert_eq!(s.read_sub_block(&mem, voices, 0), vec![0u8; 7]);
    assert_eq!(s.read_sub_block(&mem, voices, 2), vec![0u8; 7]);
    assert_eq!(mem.peek(0xd406), 0);
    assert_eq!(mem.peek(0xd407), 0xa1);
    assert_eq!(mem.peek(0xd40d), 0xa7);
    assert_eq!(mem.peek(0xd40e), 0);
}

#[test]
fn sub_block_field_offset() {
    let s = c64::sid();
    let voices = sid::voices();
    assert_eq!(voices.start(s.size, 0), 0);
    assert_eq!(voices.start(s.size, 2), 14);
    let f = voices.field(s.size, 2, sid::voice_control());
    assert_eq!(f, Field::byte(18));
    let mut mem = Memory::new();
    s.write(&mut mem, f, 0x41);
    assert_eq!(mem.peek(0xd412), 0x41);
    let g = Group { offset: 3, stride: 4, count: 2 };
    let v = RegisterView::bind(16, 0x1000);
    v.write_sub_block(&mut mem, g, 1, &vec![9, 9, 9, 9]);
    assert_eq!(mem.peek(0x1006), 0);
    assert_eq!(mem.peek(0x1007), 9);
    assert_eq!(mem.peek(0x100a), 9);
    assert_eq!(mem.peek(0x100b), 0);
}

fn exercise_video(view: RegisterView) -> (u8, u8, u8) {
    let mut mem = Memory::new();
    let b = view.base;
    mem.poke(b + 0x20, 0xa0);
    view.write(&mut mem, vic2::border_color(), 0x7);
    view.write(&mut mem, vic2::control_y(), 0x1b);
    (
        view.read(&mem, vic2::border_color()),
        mem.peek(b + 0x20),
        mem.peek(b + 0x11),
    )
}

#[test]
fn video_views_of_both_profiles_agree() {
    let a = exercise_video(c64::vic_ii());
    let b = exercise_video(mega65::vic_ii());
    assert_eq!(a, (0x7, 0xa7, 0x1b));
    assert_eq!(a, b);
    let shifted = exercise_video(RegisterView::bind(vic2::SIZE, 0x4000));
    assert_eq!(a, shifted);
}

#[test]
fn sound_views_at_different_bases_agree() {
    let mut m1 = Memory::new();
    let mut m2 = Memory::new();
    let a = c64::sid();
    let b = mega65::sid(1);
    assert_eq!(b.base, 0xd420);
    a.write(&mut m1, sid::volume(), 0xc);
    b.write(&mut m2, sid::volume(), 0xc);
    assert_eq!(a.read(&m1, sid::volume()), b.read(&m2, sid::volume()));
    assert_eq!(m1.peek(0xd418), 0x0c);
    assert_eq!(m2.peek(0xd438), 0x0c);
    assert_eq!(m2.peek(0xd418), 0x00);
}
