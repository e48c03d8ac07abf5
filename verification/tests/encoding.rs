use mwcas::atomic::{Bits, Word};
use mwcas::casword::CasWord;
use mwcas::mcas::Cas2DescriptorStatus;
use mwcas::mwcas::{CasNDescriptorStatus, FAILED, SUCCEEDED, UNDECIDED};
use mwcas::rdcss::is_marked;
use mwcas::thread_local::ThreadId;

#[test]
fn atomic_test_descriptor_ptr() {
    let seq_number = mwcas::sequence_number::SeqNumber::from_usize(20000);
    let tid = ThreadId::from_u16(2u16.pow(14) - 1);
    let descriptor = Bits::new_descriptor_ptr(tid, seq_number);
    assert_eq!(descriptor.tid(), tid);
    assert_eq!(descriptor.seq(), seq_number);

    let marked_descriptor = descriptor.with_mark(1);
    assert_eq!(marked_descriptor.mark(), 1);
    let marked_descriptor = descriptor.with_mark(2);
    assert_eq!(marked_descriptor.mark(), 2);
    assert_eq!(marked_descriptor.tid(), tid);
    assert_eq!(marked_descriptor.seq(), seq_number);
}

#[test]
fn casword_test_descriptor_ptr() {
    let seq_number = mwcas::casword::SeqNumber::from_usize(20000);
    let tid = ThreadId::from_u16(2u16.pow(14) - 1);
    let descriptor = CasWord::new_descriptor_ptr(tid, seq_number);
    assert_eq!(descriptor.tid(), tid);
    assert_eq!(descriptor.seq(), seq_number);

    let marked_descriptor = descriptor.with_mark(1);
    assert_eq!(marked_descriptor.mark(), 1);
    let marked_descriptor = descriptor.with_mark(2);
    assert_eq!(marked_descriptor.mark(), 2);
    assert_eq!(marked_descriptor.tid(), tid);
    assert_eq!(marked_descriptor.seq(), seq_number);
}

#[test]
fn descriptor_test_descriptor_ptr() {
    let seq_number = mwcas::descriptor::SeqNumber::from_usize(20000);
    let tid = ThreadId::from_u16(2u16.pow(14) - 1);
    let descriptor = mwcas::descriptor::MarkedPtr::new(tid, seq_number);
    assert_eq!(descriptor.tid(), tid);
    assert_eq!(descriptor.seq(), seq_number);

    let marked_descriptor = descriptor.with_mark(1);
    assert_eq!(marked_descriptor.mark(), 1);
    let marked_descriptor = descriptor.with_mark(2);
    assert_eq!(marked_descriptor.mark(), 2);
    assert_eq!(marked_descriptor.tid(), tid);
    assert_eq!(marked_descriptor.seq(), seq_number);
}

#[test]
fn ptr_test_descriptor_ptr() {
    let seq_number = mwcas::ptr::SeqNumber::from_usize(20000);
    let tid = ThreadId::from_u16(2u16.pow(14) - 1);
    let descriptor = mwcas::ptr::MarkedPtr::new(tid, seq_number);
    assert_eq!(descriptor.tid(), tid);
    assert_eq!(descriptor.seq(), seq_number);

    let marked_descriptor = descriptor.with_mark(1);
    assert_eq!(marked_descriptor.mark(), 1);
    let marked_descriptor = descriptor.with_mark(2);
    assert_eq!(marked_descriptor.mark(), 2);
    assert_eq!(marked_descriptor.tid(), tid);
    assert_eq!(marked_descriptor.seq(), seq_number);
}

#[test]
fn tag_round_trip_all_tags() {
    let tid = ThreadId::from_u16(0x3fff);
    let seq = mwcas::sequence_number::SeqNumber::from_usize((1usize << 48) - 1);
    let descriptor = Bits::new_descriptor_ptr(tid, seq);
    assert_eq!(descriptor.mark(), 0);
    for tag in 0..3usize {
        let marked = descriptor.with_mark(tag);
        assert_eq!(marked.mark(), tag);
        assert_eq!(marked.tid(), tid);
        assert_eq!(marked.seq(), seq);
    }
}

#[test]
fn word_round_trip_bounds() {
    let zero: usize = 0;
    assert_eq!(usize::of_bits(zero.to_bits()), 0);
    let max: usize = (1usize << 62) - 1;
    assert_eq!(usize::of_bits(max.to_bits()), max);
    assert_eq!(max.to_bits().mark(), 0);
    let seven: usize = 7;
    assert_eq!(seven.to_bits().into_usize(), 7 << 2);
}

#[test]
fn casn_status_round_trip() {
    let seq = mwcas::sequence_number::SeqNumber::from_usize(20000);
    let undecided = CasNDescriptorStatus::undecided(seq);
    assert_eq!(undecided.status(), UNDECIDED);
    assert_eq!(undecided.seq_number(), seq);
    let succeeded = CasNDescriptorStatus::succeeded(seq);
    assert_eq!(succeeded.status(), SUCCEEDED);
    assert_eq!(succeeded.seq_number(), seq);
    let failed = CasNDescriptorStatus::failed(seq);
    assert_eq!(failed.status(), FAILED);
    assert_eq!(failed.seq_number(), seq);
    let turned = succeeded.set_failed();
    assert_eq!(turned.status(), FAILED);
    assert_eq!(turned.seq_number(), seq);
}

#[test]
fn cas2_status_round_trip() {
    let seq = mwcas::descriptor::SeqNumber::from_usize(31);
    let undecided = Cas2DescriptorStatus::undecided(seq);
    assert_eq!(undecided.status(), mwcas::mcas::UNDECIDED);
    assert_eq!(undecided.seq_number(), seq);
    let turned = undecided.set_failed();
    assert_eq!(turned.status(), mwcas::mcas::FAILED);
    assert_eq!(turned.seq_number(), seq);
}

#[test]
fn rdcss_mark_detection() {
    let tid = ThreadId::from_u16(3);
    let seq = mwcas::sequence_number::SeqNumber::from_usize(11);
    let descriptor = Bits::new_descriptor_ptr(tid, seq);
    assert!(!is_marked(descriptor));
    assert!(is_marked(descriptor.with_mark(1)));
    assert!(!is_marked(descriptor.with_mark(2)));
    assert!(!is_marked(42usize.to_bits()));
}
