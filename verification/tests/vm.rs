use synacor::errors::VmError;
use synacor::model::StepOutcome;
use synacor::program::Program;

const BUDGET: u64 = 100_000;

fn image(words: &[u16]) -> Vec<u8> {
    let mut bytes = Vec::new();
    for w in words {
        bytes.push((w & 0xff) as u8);
        bytes.push((w >> 8) as u8);
    }
    bytes
}

fn full_image(entries: &[(usize, u16)]) -> Vec<u8> {
    let mut words = vec![0u16; 32768];
    for (addr, w) in entries {
        words[*addr] = *w;
    }
    image(&words)
}

#[test]
fn self_test_add_and_out() {
    let mut p = Program::new(image(&[9, 32768, 32769, 4, 19, 32768]));
    assert_eq!(p.execute(BUDGET), Ok(StepOutcome::Halted));
    assert_eq!(p.register(0), 4);
    assert_eq!(p.take_output(), vec![0x04]);
}

#[test]
fn hello_loop_outputs_hi() {
    let mut p = Program::new(image(&[19, 72, 19, 105, 0]));
    assert_eq!(p.execute(BUDGET), Ok(StepOutcome::Halted));
    assert_eq!(p.take_output(), b"Hi".to_vec());
}

#[test]
fn call_and_ret() {
    let mut p = Program::new(image(&[17, 4, 0, 0, 19, 33, 18]));
    assert_eq!(p.step(), Ok(StepOutcome::Continue));
    assert_eq!(p.cursor(), 4);
    assert_eq!(p.stack_depth(), 1);
    assert_eq!(p.execute(BUDGET), Ok(StepOutcome::Halted));
    assert_eq!(p.cursor(), 2);
    assert_eq!(p.stack_depth(), 0);
    assert_eq!(p.take_output(), b"!".to_vec());
}

#[test]
fn stack_preservation() {
    let mut p = Program::new(image(&[2, 7, 2, 5, 3, 32768, 3, 32769, 19, 32769, 19, 32768, 0]));
    assert_eq!(p.execute(BUDGET), Ok(StepOutcome::Halted));
    assert_eq!(p.register(0), 5);
    assert_eq!(p.register(1), 7);
    assert_eq!(p.stack_depth(), 0);
    assert_eq!(p.take_output(), vec![0x07, 0x05]);
}

#[test]
fn unknown_opcode_fails() {
    let mut p = Program::new(image(&[22]));
    assert_eq!(p.execute(BUDGET), Err(VmError::UnknownOpcode));
    assert_eq!(p.cursor(), 0);
    assert_eq!(p.take_output(), Vec::<u8>::new());
}

#[test]
fn empty_stack_ret_halts() {
    let mut p = Program::new(image(&[18]));
    assert_eq!(p.execute(BUDGET), Ok(StepOutcome::Halted));
    assert_eq!(p.take_output(), Vec::<u8>::new());
}

#[test]
fn mult_boundary() {
    let mut p = Program::new(image(&[10, 32768, 32767, 32767, 0]));
    assert_eq!(p.execute(BUDGET), Ok(StepOutcome::Halted));
    assert_eq!(p.register(0), 1);
}

#[test]
fn not_boundaries() {
    let mut p = Program::new(image(&[14, 32768, 0, 0]));
    assert_eq!(p.execute(BUDGET), Ok(StepOutcome::Halted));
    assert_eq!(p.register(0), 32767);

    let mut q = Program::new(image(&[14, 32768, 32767, 0]));
    assert_eq!(q.execute(BUDGET), Ok(StepOutcome::Halted));
    assert_eq!(q.register(0), 0);
}

#[test]
fn not_twice_is_identity() {
    let mut p = Program::new(image(&[14, 32768, 12345, 14, 32768, 32768, 0]));
    assert_eq!(p.execute(BUDGET), Ok(StepOutcome::Halted));
    assert_eq!(p.register(0), 12345);
}

#[test]
fn jump_true_zero_not_taken() {
    let mut p = Program::new(image(&[7, 0, 5, 0, 0, 19, 65, 0]));
    assert_eq!(p.step(), Ok(StepOutcome::Continue));
    assert_eq!(p.cursor(), 3);
    assert_eq!(p.execute(BUDGET), Ok(StepOutcome::Halted));
    assert_eq!(p.take_output(), Vec::<u8>::new());
}

#[test]
fn jump_true_nonzero_taken() {
    let mut p = Program::new(image(&[7, 1, 5, 0, 0, 19, 65, 0]));
    assert_eq!(p.step(), Ok(StepOutcome::Continue));
    assert_eq!(p.cursor(), 5);
    assert_eq!(p.execute(BUDGET), Ok(StepOutcome::Halted));
    assert_eq!(p.take_output(), vec![65]);

    let mut q = Program::new(image(&[7, 32767, 5, 0, 0, 19, 65, 0]));
    assert_eq!(q.execute(BUDGET), Ok(StepOutcome::Halted));
    assert_eq!(q.take_output(), vec![65]);
}

#[test]
fn jump_false_taken_on_zero() {
    let mut p = Program::new(image(&[8, 0, 5, 0, 0, 19, 66, 0]));
    assert_eq!(p.execute(BUDGET), Ok(StepOutcome::Halted));
    assert_eq!(p.take_output(), vec![66]);

    let mut q = Program::new(image(&[8, 1, 5, 0, 0, 19, 66, 0]));
    assert_eq!(q.execute(BUDGET), Ok(StepOutcome::Halted));
    assert_eq!(q.take_output(), Vec::<u8>::new());
}

#[test]
fn jump_moves_cursor() {
    let mut p = Program::new(image(&[6, 3, 0, 19, 65, 0]));
    assert_eq!(p.execute(BUDGET), Ok(StepOutcome::Halted));
    assert_eq!(p.take_output(), vec![65]);
}

#[test]
fn push_pop_round_trip() {
    let mut p = Program::new(image(&[2, 9, 3, 32768, 0]));
    assert_eq!(p.stack_depth(), 0);
    assert_eq!(p.step(), Ok(StepOutcome::Continue));
    assert_eq!(p.stack_depth(), 1);
    assert_eq!(p.step(), Ok(StepOutcome::Continue));
    assert_eq!(p.stack_depth(), 0);
    assert_eq!(p.register(0), 9);
}

#[test]
fn add_wraps_modulo() {
    let mut p = Program::new(image(&[9, 32768, 32758, 15, 0]));
    assert_eq!(p.execute(BUDGET), Ok(StepOutcome::Halted));
    assert_eq!(p.register(0), 5);
}

#[test]
fn bitwise_and_or() {
    let mut p = Program::new(image(&[12, 32768, 6, 3, 13, 32769, 6, 3, 0]));
    assert_eq!(p.execute(BUDGET), Ok(StepOutcome::Halted));
    assert_eq!(p.register(0), 2);
    assert_eq!(p.register(1), 7);
}

#[test]
fn modulo_remainder() {
    let mut p = Program::new(image(&[11, 32768, 7, 3, 0]));
    assert_eq!(p.execute(BUDGET), Ok(StepOutcome::Halted));
    assert_eq!(p.register(0), 1);
}

#[test]
fn set_copies_value() {
    let mut p = Program::new(image(&[1, 32768, 42, 1, 32769, 32768, 0]));
    assert_eq!(p.execute(BUDGET), Ok(StepOutcome::Halted));
    assert_eq!(p.register(0), 42);
    assert_eq!(p.register(1), 42);
}

#[test]
fn equal_and_greater_than() {
    let mut p = Program::new(image(&[4, 32768, 3, 3, 4, 32769, 3, 4, 5, 32770, 9, 3, 0]));
    assert_eq!(p.execute(BUDGET), Ok(StepOutcome::Halted));
    assert_eq!(p.register(0), 1);
    assert_eq!(p.register(1), 0);
    assert_eq!(p.register(2), 1);
}

#[test]
fn rmem_reads_raw_word() {
    let mut p = Program::new(image(&[15, 32768, 1, 0]));
    assert_eq!(p.execute(BUDGET), Ok(StepOutcome::Halted));
    assert_eq!(p.register(0), 32768);
}

#[test]
fn wmem_then_rmem() {
    let mut p = Program::new(image(&[16, 7, 42, 15, 32769, 7, 0, 0]));
    assert_eq!(p.execute(BUDGET), Ok(StepOutcome::Halted));
    assert_eq!(p.register(1), 42);
}

#[test]
fn input_pauses_and_resumes() {
    let mut p = Program::new(image(&[20, 32768, 20, 32769, 19, 32768, 0]));
    assert_eq!(p.execute(BUDGET), Ok(StepOutcome::NeedInput));
    assert_eq!(p.cursor(), 0);
    p.provide_input(b"A\n".to_vec());
    assert_eq!(p.execute(BUDGET), Ok(StepOutcome::Halted));
    assert_eq!(p.register(0), 65);
    assert_eq!(p.register(1), 10);
    assert_eq!(p.take_output(), vec![65]);
}

#[test]
fn expected_register_fails() {
    let mut p = Program::new(image(&[1, 5, 0]));
    assert_eq!(p.execute(BUDGET), Err(VmError::ExpectedRegister));
    assert_eq!(p.cursor(), 0);
}

#[test]
fn invalid_word_fails() {
    let mut p = Program::new(image(&[1, 32768, 32776]));
    assert_eq!(p.execute(BUDGET), Err(VmError::InvalidWord));
    assert_eq!(p.cursor(), 0);
}

#[test]
fn stack_underflow_fails() {
    let mut p = Program::new(image(&[3, 32768]));
    assert_eq!(p.execute(BUDGET), Err(VmError::StackUnderflow));
    assert_eq!(p.cursor(), 0);
}

#[test]
fn division_by_zero_fails() {
    let mut p = Program::new(image(&[11, 32768, 5, 0]));
    assert_eq!(p.execute(BUDGET), Err(VmError::DivisionByZero));
    assert_eq!(p.cursor(), 0);
}

#[test]
fn invalid_character_fails() {
    let mut p = Program::new(image(&[19, 128]));
    assert_eq!(p.execute(BUDGET), Err(VmError::InvalidCharacter));
    assert_eq!(p.cursor(), 0);
    assert_eq!(p.take_output(), Vec::<u8>::new());
}

#[test]
fn fetch_past_end_fails() {
    let mut p = Program::new(full_image(&[(0, 6), (1, 32767), (32767, 21)]));
    assert_eq!(p.execute(BUDGET), Err(VmError::AddressOutOfRange));
    assert_eq!(p.cursor(), 32768);
}

#[test]
fn bad_jump_target_fails() {
    // A call whose opcode sits at the last two words of the address space
    // pushes the out-of-range resume address 32768; popping it into a
    // register and jumping through that register is the one way to aim a
    // jump outside the address space.
    let mut p = Program::new(full_image(&[
        (0, 6),
        (1, 32766),
        (2, 3),
        (3, 32768),
        (4, 6),
        (5, 32768),
        (32766, 17),
        (32767, 2),
    ]));
    assert_eq!(p.execute(BUDGET), Err(VmError::BadJumpTarget));
    assert_eq!(p.register(0), 32768);
    assert_eq!(p.cursor(), 4);
}

#[test]
fn execute_budget_exhausted() {
    let mut p = Program::new(image(&[6, 0]));
    assert_eq!(p.execute(100), Ok(StepOutcome::Continue));
    assert_eq!(p.cursor(), 0);
}

#[test]
fn take_output_drains() {
    let mut p = Program::new(image(&[19, 72, 19, 105, 0]));
    assert_eq!(p.execute(BUDGET), Ok(StepOutcome::Halted));
    assert_eq!(p.take_output(), b"Hi".to_vec());
    assert_eq!(p.take_output(), Vec::<u8>::new());
}

#[test]
fn out_allows_all_ascii() {
    let mut p = Program::new(image(&[19, 10, 19, 0, 19, 127, 0]));
    assert_eq!(p.execute(BUDGET), Ok(StepOutcome::Halted));
    assert_eq!(p.take_output(), vec![10, 0, 127]);
}

#[test]
fn noop_advances() {
    let mut p = Program::new(image(&[21, 21, 0]));
    assert_eq!(p.step(), Ok(StepOutcome::Continue));
    assert_eq!(p.cursor(), 1);
    assert_eq!(p.execute(BUDGET), Ok(StepOutcome::Halted));
}

#[test]
fn empty_image_halts_at_zero() {
    let mut p = Program::new(Vec::new());
    assert_eq!(p.execute(BUDGET), Ok(StepOutcome::Halted));
    assert_eq!(p.cursor(), 0);
    assert_eq!(p.take_output(), Vec::<u8>::new());
}

#[test]
fn input_lines_queue_in_order() {
    let mut p = Program::new(image(&[20, 32768, 20, 32769, 20, 32770, 0]));
    p.provide_input(b"a\n".to_vec());
    p.provide_input(b"b".to_vec());
    assert_eq!(p.execute(BUDGET), Ok(StepOutcome::Halted));
    assert_eq!(p.register(0), b'a' as u16);
    assert_eq!(p.register(1), b'\n' as u16);
    assert_eq!(p.register(2), b'b' as u16);
}
