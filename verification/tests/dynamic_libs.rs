use local_compute::dynamic_libs::{execute, ADDER_SYMBOL, BAD_ADDER_DLL, GOOD_ADDER_DLL};

/// Stands for the two sample libraries: the working adder adds, the faulty
/// one answers zero.
fn sample_adder(lib_path: &str, adder_func: &str, a: isize, b: isize) -> Option<isize> {
    if adder_func != ADDER_SYMBOL {
        None
    } else if lib_path == GOOD_ADDER_DLL {
        Some(a + b)
    } else if lib_path == BAD_ADDER_DLL {
        Some(0)
    } else {
        None
    }
}

#[test]
fn it_works() {
    let (good, bad) = execute(sample_adder, 2, 2);
    println!("Good: {:?}", good);
    println!("Bad: {:?}", bad);
    assert_eq!(good, Some(4));
    assert_eq!(bad, Some(0));
}

#[test]
fn execute_reports_a_library_that_cannot_be_loaded() {
    let (good, bad) = execute(|_, _, _, _| None, 2, 2);
    assert_eq!(good, None);
    assert_eq!(bad, None);
}
