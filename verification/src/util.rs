//! Small helpers: a value holder, and the platform's path and command
//! separators.

use vstd::prelude::*;

use crate::text::{chars_of, replace_char, same_text};

verus! {

/// A value that is read by copy and replaced as a whole.
pub struct GetSetWrapper<T: Clone + Default> {
    val: T,
}

impl<T: Clone + Default> View for GetSetWrapper<T> {
    type V = T;

    closed spec fn view(&self) -> T {
        self.val
    }
}

impl<T: Clone + Default> GetSetWrapper<T> {
    /// Replaces the held value by `val`.
    pub fn set(&mut self, val: T)
        ensures
            final(self)@ == val,
    {
        self.val = val;
    }

    /// A clone of the held value.
    pub fn get(&self) -> (res: T)
        ensures
            cloned(self@, res),
    {
        self.val.clone()
    }

    /// A holder of `T`'s default value.
    pub fn new() -> (res: Self)
        ensures
            call_ensures(T::default, (), res@),
    {
        Self { val: T::default() }
    }
}


/// Integer division rounded toward zero, as Rust's `/` on signed integers.
pub open spec fn truncating_div(a: int, b: int) -> int {
    if a >= 0 {
        a / b
    } else {
        -((-a) / b)
    }
}

impl GetSetWrapper<i32> {
    /// Adds `other` to the held value.
    pub fn add(&mut self, other: i32)
        requires
            i32::MIN <= old(self)@ + other <= i32::MAX,
        ensures
            final(self)@ == old(self)@ + other,
    {
        self.val += other;
    }

    /// Multiplies the held value by `other`.
    pub fn mul(&mut self, other: i32)
        requires
            i32::MIN <= old(self)@ * other <= i32::MAX,
        ensures
            final(self)@ == old(self)@ * other,
    {
        self.val *= other;
    }

    /// Divides the held value by `other`, rounding toward zero.
    pub fn div(&mut self, other: i32)
        requires
            other != 0,
            !(old(self)@ == i32::MIN && other == -1),
        ensures
            final(self)@ == truncating_div(old(self)@ as int, other as int),
    {
        let a = self.val;
        proof {
            let n: int = if a >= 0 { a as int } else { -(a as int) };
            let b: int = other as int;
            assert(-n <= n / b <= n) by (nonlinear_arith)
                requires
                    n >= 0,
                    b != 0,
            ;
            if n > 0 {
                assert(n / b == -n ==> b == -1) by (nonlinear_arith)
                    requires
                        n > 0,
                        b != 0,
                ;
            }
        }
        self.val = a / other;
    }

    /// Subtracts `other` from the held value.
    pub fn sub(&mut self, other: i32)
        requires
            i32::MIN <= old(self)@ - other <= i32::MAX,
        ensures
            final(self)@ == old(self)@ - other,
    {
        self.val -= other;
    }
}


/// Whether `os`, named as `std::env::consts::OS` names it, is Windows.
pub open spec fn is_windows(os: Seq<char>) -> bool {
    os == "windows"@
}

/// The character that separates directories in a path on `os`.
pub fn get_dir_char(os: &str) -> (res: char)
    ensures
        res == if is_windows(os@) { '\\' } else { '/' },
{
    if same_text(os, "windows") {
        return '\\';
    }
    '/'
}

/// The character that separates commands on one command line of `os`.
pub fn get_chain_char(os: &str) -> (res: char)
    ensures
        res == if is_windows(os@) { '&' } else { ';' },
{
    if same_text(os, "windows") {
        return '&';
    }
    ';'
}

/// The launch argument cut at its last `dir_char`: the command after it, and
/// the directory before it with `dir_char` written as `/`.  With no
/// `dir_char`, the whole argument is the command and the directory is empty.
pub open spec fn launch_parts(arg: Seq<char>, dir_char: char) -> (Seq<char>, Seq<char>) {
    match arg.index_of_last(dir_char) {
        Some(k) => (arg.skip(k + 1), replace_char(arg.take(k), dir_char, '/')),
        None => (arg, Seq::<char>::empty()),
    }
}

/// Splits the server's launch argument (a path to the launch script) into
/// the script's name and the directory to run it in.
pub fn split_launch_argument(arg: &str, dir_char: char) -> (res: (String, String))
    ensures
        (res.0@, res.1@) == launch_parts(arg@, dir_char),
{
    let chars = chars_of(arg);
    let mut k = chars.len();
    while k > 0
        invariant
            k <= chars@.len(),
            chars@ == arg@,
            forall|j: int| k <= j < chars@.len() ==> chars@[j] != dir_char,
        ensures
            k == 0 || chars@[k - 1] == dir_char,
        decreases k,
    {
        if chars[k - 1] == dir_char {
            break;
        }
        k = k - 1;
    }
    proof {
        arg@.index_of_last_ensures(dir_char);
    }
    if k == 0 {
        proof {
            if arg@.contains(dir_char) {
                let j = choose|j: int| 0 <= j < arg@.len() && arg@[j] == dir_char;
                assert(chars@[j] != dir_char);
            }
        }
        return (String::from_str(arg), String::new());
    }
    let last = k - 1;
    proof {
        let found = arg@.index_of_last(dir_char);
        assert(arg@.contains(dir_char)) by {
            assert(arg@[last as int] == dir_char);
        }
        let q = found.unwrap();
        assert(q == last as int) by {
            if q < last {
                assert(arg@[last as int] == dir_char);
            }
        }
    }
    let command = String::from_str(arg.substring_char(k, chars.len()));
    let mut directory = String::new();
    let mut i: usize = 0;
    while i < last
        invariant
            i <= last < chars@.len(),
            chars@ == arg@,
            directory@ == replace_char(arg@.take(i as int), dir_char, '/'),
        decreases last - i,
    {
        let ghost before = directory@;
        if chars[i] == dir_char {
            directory.append("/");
            proof {
                reveal_strlit("/");
            }
        } else {
            directory.append(arg.substring_char(i, i + 1));
        }
        assert(arg@.take(i + 1) =~= arg@.take(i as int).push(arg@[i as int]));
        assert(directory@ =~= replace_char(arg@.take(i + 1), dir_char, '/'));
        i = i + 1;
    }
    (command, directory)
}

/// The program that runs the launch script `command` on `os`, and the
/// arguments to give it: `cmd /C command` on Windows, `sh command` elsewhere.
pub fn launch_program(os: &str, command: &str) -> (res: (String, Vec<String>))
    ensures
        res.0@ == if is_windows(os@) { "cmd"@ } else { "sh"@ },
        res.1@.len() == if is_windows(os@) { 2nat } else { 1nat },
        is_windows(os@) ==> res.1@[0]@ == "/C"@ && res.1@[1]@ == command@,
        !is_windows(os@) ==> res.1@[0]@ == command@,
{
    let mut args: Vec<String> = Vec::new();
    if same_text(os, "windows") {
        args.push(String::from_str("/C"));
        args.push(String::from_str(command));
        (String::from_str("cmd"), args)
    } else {
        args.push(String::from_str(command));
        (String::from_str("sh"), args)
    }
}


/// Putting the directory, a `/` and the command back together gives the
/// launch argument with every `dir_char` written as `/`, whenever the
/// argument holds a `dir_char`.
pub proof fn law_launch_parts_rejoin(arg: Seq<char>, dir_char: char)
    requires
        arg.contains(dir_char),
    ensures
        ({
            let (command, directory) = launch_parts(arg, dir_char);
            directory + "/"@ + command == replace_char(arg, dir_char, '/')
        }),
{
    reveal_strlit("/");
    arg.index_of_last_ensures(dir_char);
    let k = arg.index_of_last(dir_char).unwrap();
    let (command, directory) = launch_parts(arg, dir_char);
    let tail = arg.skip(k + 1);
    assert(replace_char(tail, dir_char, '/') =~= tail) by {
        assert forall|j: int| 0 <= j < tail.len() implies #[trigger] tail[j] != dir_char by {
            assert(arg[k + 1 + j] == tail[j]);
        }
    }
    assert(arg =~= arg.take(k) + seq![dir_char] + arg.skip(k + 1));
    assert(directory + "/"@ + command =~= replace_char(arg, dir_char, '/'));
}


/// The command is the text after the last `dir_char`: it is what the
/// argument ends with, it holds no `dir_char` when the argument holds one,
/// and with the directory and one separator it accounts for every character
/// of the argument.  Without a `dir_char`, the command is the whole argument
/// and the directory is empty.
pub proof fn law_command_follows_last_separator(arg: Seq<char>, dir_char: char)
    ensures
        ({
            let (command, directory) = launch_parts(arg, dir_char);
            &&& command.is_suffix_of(arg)
            &&& !command.contains(dir_char)
            &&& arg.contains(dir_char) ==> {
                &&& directory.len() + 1 + command.len() == arg.len()
                &&& arg[arg.len() - command.len() - 1] == dir_char
            }
            &&& !arg.contains(dir_char) ==> command == arg && directory.len() == 0
        }),
{
    arg.index_of_last_ensures(dir_char);
    let (command, directory) = launch_parts(arg, dir_char);
    match arg.index_of_last(dir_char) {
        Some(k) => {
            assert(command =~= arg.subrange(arg.len() - command.len(), arg.len() as int));
            assert forall|j: int| 0 <= j < command.len() implies #[trigger] command[j] != dir_char by {
                assert(command[j] == arg[k + 1 + j]);
            }
        },
        None => {
            assert(command =~= arg.subrange(0, arg.len() as int));
        },
    }
}

} // verus!
