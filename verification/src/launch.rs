//! The command that opens the system's sound settings on the recording tab.

use crate::wide::{
    lemma_until_nul_is_free_of_nul, lemma_until_nul_of_terminated, units_until_nul, until_nul,
    wide_of, widen,
};
use vstd::prelude::*;

verus! {

/// What to start: the program, its command line, and the directory to start
/// it in. Each is a run of UTF-16 code units that ends in a terminator.
pub struct Launch {
    pub directory: Vec<u16>,
    pub command: Vec<u16>,
    pub arguments: Vec<u16>,
}

/// The system directory out of the buffer that the platform filled, where
/// `length` is the number of units it reports to have written. A length of
/// zero, or one beyond the buffer, reports a failure.
pub open spec fn directory_from(buffer: Seq<u16>, length: int) -> Option<Seq<u16>> {
    if length <= 0 || length > buffer.len() {
        None
    } else {
        Some(buffer.take(length).push(0u16))
    }
}

/// The control panel's program in the system directory.
pub open spec fn command_in(directory: Seq<u16>) -> Seq<u16> {
    (until_nul(directory) + wide_of("\\control.exe"@)).push(0u16)
}

/// The command line that opens the sound settings on the recording tab.
pub open spec fn arguments_in(directory: Seq<u16>) -> Seq<u16> {
    (until_nul(command_in(directory)) + wide_of(" mmsys.cpl,,1"@)).push(0u16)
}

/// Appends the units of `tail` to `units`.
fn extend(units: &mut Vec<u16>, tail: &Vec<u16>)
    ensures
        final(units)@ == old(units)@ + tail@,
{
    let ghost start = units@;
    let mut i: usize = 0;
    while i < tail.len()
        invariant
            i <= tail@.len(),
            units@ == start + tail@.take(i as int),
        decreases tail@.len() - i,
    {
        units.push(tail[i]);
        assert(units@ =~= start + tail@.take(i + 1));
        i = i + 1;
    }
    assert(tail@.take(i as int) =~= tail@);
}

/// Takes the system directory out of the buffer that the platform filled.
pub fn system_directory(buffer: &[u16], length: usize) -> (directory: Option<Vec<u16>>)
    ensures
        match directory {
            Some(units) => directory_from(buffer@, length as int) == Some(units@),
            None => directory_from(buffer@, length as int) is None,
        },
{
    if length == 0 || length > buffer.len() {
        return None;
    }
    let mut units: Vec<u16> = Vec::new();
    let mut i: usize = 0;
    while i < length
        invariant
            i <= length <= buffer@.len(),
            units@ == buffer@.take(i as int),
        decreases length - i,
    {
        units.push(buffer[i]);
        assert(units@ =~= buffer@.take(i + 1));
        i = i + 1;
    }
    units.push(0);
    Some(units)
}

/// The launch that opens the sound settings on the recording tab, for the
/// system directory given.
pub fn sound_settings(directory: &[u16]) -> (launch: Launch)
    ensures
        launch.directory@ == until_nul(directory@).push(0u16),
        launch.command@ == command_in(directory@),
        launch.arguments@ == arguments_in(directory@),
{
    proof {
        reveal_strlit("\\control.exe");
        reveal_strlit(" mmsys.cpl,,1");
    }
    let mut home = units_until_nul(directory);
    let mut command = units_until_nul(directory);
    home.push(0);
    let program = widen("\\control.exe");
    extend(&mut command, &program);
    command.push(0);
    let mut arguments = units_until_nul(command.as_slice());
    let options = widen(" mmsys.cpl,,1");
    extend(&mut arguments, &options);
    arguments.push(0);
    Launch { directory: home, command, arguments }
}

/// The command line is the program's path with the options behind it: the
/// path is read back whole from the command, whatever the directory.
pub proof fn lemma_arguments_extend_command(directory: Seq<u16>)
    ensures
        until_nul(command_in(directory)) == until_nul(directory) + wide_of("\\control.exe"@),
        arguments_in(directory) == (until_nul(directory) + wide_of("\\control.exe"@) + wide_of(
            " mmsys.cpl,,1"@,
        )).push(0u16),
{
    reveal_strlit("\\control.exe");
    let path = until_nul(directory) + wide_of("\\control.exe"@);
    lemma_until_nul_is_free_of_nul(directory);
    assert forall|i: int| 0 <= i < path.len() implies path[i] != 0 by {
        if i >= until_nul(directory).len() {
            let k = i - until_nul(directory).len();
            assert(path[i] == wide_of("\\control.exe"@)[k]);
        }
    }
    lemma_until_nul_of_terminated(path);
}

} // verus!
