//! The arguments that the C compiler needs to read the firmware's headers.

use vstd::prelude::*;
use vstd::string::StringExecFns;

verus! {

/// The compiler arguments for the firmware whose headers lie in the
/// directory `headers` and a toolchain whose system root is `sysroot`, in
/// order: the firmware's headers, then the system root's headers for C and
/// for C++.
pub open spec fn args(headers: Seq<char>, sysroot: Seq<char>) -> Seq<Seq<char>> {
    seq![
        "-I"@ + headers,
        "-isystem"@,
        sysroot + "/include"@,
        "-cxx-isystem"@,
        sysroot + "/include/c++"@,
    ]
}

/// The first place to look for a system root that the compiler does not
/// tell.
pub open spec fn first_fallback() -> Seq<char> {
    "/usr/lib/arm-none-eabi"@
}

/// The second place to look for a system root that the compiler does not
/// tell.
pub open spec fn second_fallback() -> Seq<char> {
    "/usr/arm-none-eabi"@
}

/// The system root of the toolchain: what the compiler printed, if it
/// printed anything; else the first of the two fallback directories that
/// exists; else none.
pub open spec fn sysroot_of(printed: Seq<char>, first_is_dir: bool, second_is_dir: bool) -> Option<
    Seq<char>,
> {
    if printed.len() > 0 {
        Some(printed)
    } else if first_is_dir {
        Some(first_fallback())
    } else if second_is_dir {
        Some(second_fallback())
    } else {
        None
    }
}

/// Chooses the system root of the toolchain from what the compiler printed
/// when asked for it, without the white space around it, and from whether
/// the two fallback directories exist.
pub fn choose_sysroot(printed: &str, first_is_dir: bool, second_is_dir: bool) -> (sysroot: Option<
    String,
>)
    ensures
        match sysroot {
            Some(chosen) => sysroot_of(printed@, first_is_dir, second_is_dir) == Some(chosen@),
            None => sysroot_of(printed@, first_is_dir, second_is_dir) is None,
        },
{
    if !printed.is_empty() {
        Some(String::from_str(printed))
    } else if first_is_dir {
        Some(String::from_str("/usr/lib/arm-none-eabi"))
    } else if second_is_dir {
        Some(String::from_str("/usr/arm-none-eabi"))
    } else {
        None
    }
}

/// Generates the compiler arguments for the firmware whose headers lie in
/// the directory `headers` and a toolchain whose system root is `sysroot`.
pub fn get_args(headers: &str, sysroot: &str) -> (arguments: Vec<String>)
    ensures
        arguments@.map_values(|argument: String| argument@) == args(headers@, sysroot@),
{
    let mut firmware = String::from_str("-I");
    firmware.append(headers);
    let mut system = String::from_str(sysroot);
    system.append("/include");
    let mut cxx = String::from_str(sysroot);
    cxx.append("/include/c++");
    let mut arguments: Vec<String> = Vec::new();
    arguments.push(firmware);
    arguments.push(String::from_str("-isystem"));
    arguments.push(system);
    arguments.push(String::from_str("-cxx-isystem"));
    arguments.push(cxx);
    assert(arguments@.map_values(|argument: String| argument@) =~= args(headers@, sysroot@));
    arguments
}

} // verus!
