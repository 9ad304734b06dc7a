use marketplace::caching::{use_memo, Computation};
use marketplace::file::{File, FileError};
use marketplace::tokens::{ControllerV1Contract, Erc1155, Erc20};
use marketplace::{version, VERSION};

#[test]
fn lib_it_works() {
    assert_eq!(version(), VERSION);
    assert_eq!(version(), "0.0.1");
}

#[test]
fn it_creates_a_token() {
    let token = Erc20::new();
    assert_eq!(token.name(), "Hello from ERC-20");
}

#[test]
fn lib_it_creates_a_token() {
    let token = Erc1155::new();
    assert_eq!(token.name(), "Hello from ERC-1155");
}

#[test]
fn controller_keeps_its_fees() {
    let controller = ControllerV1Contract::new(98761234);
    assert_eq!(controller.get_fees(), 98761234);
}

#[test]
fn most_basic_case_works() {
    struct MyComputationArgs(u64, u32);

    let my_args = MyComputationArgs(7, 3);
    let my_computation_fn = |args: &MyComputationArgs| args.0 * (args.1 as u64);

    let mut my_computiation = Computation::prepare(Box::new(my_computation_fn), my_args);

    let my_result = *my_computiation.exec();
    assert_eq!(my_result, 21);

    struct MyComputationArgsStr<'a>(&'a str, &'a str);

    let my_str_args = MyComputationArgsStr("hey".into(), "there".into());
    let my_str_computation_fn = |args: &MyComputationArgsStr| {
        let mut r = String::from(args.0);
        r.push_str(args.1);
        r
    };

    let mut my_str_computiation = Computation::prepare(Box::new(my_str_computation_fn), my_str_args);
    assert_eq!(my_str_computiation.exec(), "heythere");
}

#[test]
fn computation_runs_its_callback_once() {
    let calls = std::cell::Cell::new(0u32);
    let mut computation = Computation::prepare(
        |x: &u32| {
            calls.set(calls.get() + 1);
            x + 2
        },
        4u32,
    );
    assert_eq!(*computation.exec(), 6);
    assert_eq!(*computation.exec(), 6);
    assert_eq!(calls.get(), 1);
}

#[test]
fn use_memo_hands_back_the_callback_result() {
    let computed_value = use_memo(|x: &[u8]| x[0] + 2, &[4]);
    assert_eq!(computed_value, 6);
}

#[test]
fn file_reads_only_when_open() {
    let file_data: &[u8] = &[114, 117, 115, 116, 33];
    let mut my_file = File::new("f1.txt", file_data);
    assert_eq!(my_file.get_name(), "f1.txt");

    let mut buffer: Vec<u8> = vec![1];
    assert_eq!(my_file.read(&mut buffer), Err(FileError::NotOpen));
    assert_eq!(buffer, vec![1]);

    assert_eq!(my_file.open(), Ok(true));
    assert_eq!(my_file.read(&mut buffer), Ok(5));
    assert_eq!(buffer, vec![1, 114, 117, 115, 116, 33]);

    assert_eq!(my_file.close(), Ok(true));
    assert_eq!(my_file.read(&mut buffer), Err(FileError::NotOpen));
}
