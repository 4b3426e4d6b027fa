//! What a stress run asks `stress-ng` to do, and the arguments that say so.

use vstd::prelude::*;
use vstd::string::*;

use crate::text::{decimal, join, push_decimal, push_char, views, join_strings};

verus! {

/// The settings of one stress run, as chosen on the Stress page.
pub struct StressConfig {
    pub test_cpu: bool,
    pub test_memory: bool,
    pub workers: u32,
    pub duration_secs: u32,
    pub cpu_method: Option<String>,
    pub verify: bool,
}

/// The `stress-ng` arguments for `c`, in order: `--cpu N [--cpu-method M]`
/// when the CPU is tested, `--vm N` when memory is tested, then
/// `--timeout <secs>s`, `--verify` when asked for, and `--metrics-brief`.
pub open spec fn spec_args(c: StressConfig) -> Seq<Seq<char>> {
    let cpu: Seq<Seq<char>> = if c.test_cpu {
        seq!["--cpu"@, decimal(c.workers as nat)] + match c.cpu_method {
            Some(m) => seq!["--cpu-method"@, m@],
            None => Seq::<Seq<char>>::empty(),
        }
    } else {
        Seq::<Seq<char>>::empty()
    };
    let memory: Seq<Seq<char>> = if c.test_memory {
        seq!["--vm"@, decimal(c.workers as nat)]
    } else {
        Seq::<Seq<char>>::empty()
    };
    let verify: Seq<Seq<char>> = if c.verify {
        seq!["--verify"@]
    } else {
        Seq::<Seq<char>>::empty()
    };
    cpu + memory + seq!["--timeout"@, decimal(c.duration_secs as nat).push('s')] + verify + seq![
        "--metrics-brief"@,
    ]
}

/// The command line shown in the log before a run: the arguments joined by
/// single spaces.
pub open spec fn spec_preview(c: StressConfig) -> Seq<char> {
    join(spec_args(c), " "@)
}

impl StressConfig {
    /// The command line that `build_args` produces, as one line of text.
    pub fn command_line_preview(&self) -> (r: String)
        ensures
            r@ == spec_preview(*self),
    {
        let args = self.build_args();
        join_strings(&args, " ")
    }

    /// The first line of a run's log: the command, `$ stress-ng ` and the
    /// preview, ending in a newline.
    pub fn command_log_line(&self) -> (r: String)
        ensures
            r@ == ("$ stress-ng "@ + spec_preview(*self)).push('\n'),
    {
        let preview = self.command_line_preview();
        let mut r = String::from_str("$ stress-ng ");
        r.append(preview.as_str());
        push_char(&mut r, '\n');
        r
    }

    /// The arguments handed to `stress-ng` for this run.
    pub fn build_args(&self) -> (args: Vec<String>)
        ensures
            views(args@) == spec_args(*self),
    {
        let mut args: Vec<String> = Vec::new();
        let ghost mut model: Seq<Seq<char>> = Seq::empty();
        if self.test_cpu {
            args.push(String::from_str("--cpu"));
            args.push(decimal_string(self.workers as u64));
            proof {
                model = seq!["--cpu"@, decimal(self.workers as nat)];
            }
            if let Some(method) = &self.cpu_method {
                args.push(String::from_str("--cpu-method"));
                args.push(method.clone());
                proof {
                    model = model + seq!["--cpu-method"@, method@];
                }
            }
        }
        assert(views(args@) =~= model);
        if self.test_memory {
            args.push(String::from_str("--vm"));
            args.push(decimal_string(self.workers as u64));
            proof {
                model = model + seq!["--vm"@, decimal(self.workers as nat)];
            }
        }
        assert(views(args@) =~= model);
        args.push(String::from_str("--timeout"));
        let mut timeout = decimal_string(self.duration_secs as u64);
        push_char(&mut timeout, 's');
        args.push(timeout);
        proof {
            model = model + seq!["--timeout"@, decimal(self.duration_secs as nat).push('s')];
        }
        assert(views(args@) =~= model);
        if self.verify {
            args.push(String::from_str("--verify"));
            proof {
                model = model + seq!["--verify"@];
            }
        }
        assert(views(args@) =~= model);
        args.push(String::from_str("--metrics-brief"));
        proof {
            model = model + seq!["--metrics-brief"@];
        }
        assert(views(args@) =~= model);
        assert(model =~= spec_args(*self));
        args
    }
}

fn decimal_string(n: u64) -> (s: String)
    ensures
        s@ == decimal(n as nat),
{
    let mut s = String::new();
    push_decimal(&mut s, n);
    assert(s@ =~= decimal(n as nat));
    s
}

/// The CPU method only matters when the CPU is tested: two configurations
/// that differ only in their method, and do not test the CPU, give
/// `stress-ng` the same arguments.
pub proof fn lemma_method_needs_cpu_test(a: StressConfig, b: StressConfig)
    requires
        !a.test_cpu,
        b.test_cpu == a.test_cpu,
        b.test_memory == a.test_memory,
        b.workers == a.workers,
        b.duration_secs == a.duration_secs,
        b.verify == a.verify,
    ensures
        spec_args(a) == spec_args(b),
        spec_preview(a) == spec_preview(b),
{
}

proof fn lemma_decimal_ends_in_digit(n: nat)
    ensures
        decimal(n).len() > 0,
        '0' <= decimal(n).last() <= '9',
{
}

/// Whatever the test type, a configuration that asks for verification gets
/// `--verify`, just before the closing `--metrics-brief`; one that does not
/// ask for it never gets `--verify` (unless it names `--verify` as its CPU
/// method, which is then passed on as given).
pub proof fn lemma_verify_flag(c: StressConfig)
    ensures
        spec_args(c).len() >= 2,
        spec_args(c).last() == "--metrics-brief"@,
        c.verify ==> spec_args(c)[spec_args(c).len() - 2] == "--verify"@,
        c.verify ==> spec_args(c).contains("--verify"@),
        !c.verify && (c.cpu_method matches Some(m) ==> m@ != "--verify"@) ==> !spec_args(c).contains(
            "--verify"@,
        ),
{
    reveal_strlit("--verify");
    reveal_strlit("--metrics-brief");
    reveal_strlit("--cpu");
    reveal_strlit("--cpu-method");
    reveal_strlit("--vm");
    reveal_strlit("--timeout");
    let args = spec_args(c);
    if c.verify {
        assert(args[args.len() - 2] == "--verify"@);
    } else if c.cpu_method matches Some(m) ==> m@ != "--verify"@ {
        lemma_decimal_ends_in_digit(c.workers as nat);
        lemma_decimal_ends_in_digit(c.duration_secs as nat);
        let v = "--verify"@;
        assert(v.last() == 'y');
        let cpu: Seq<Seq<char>> = if c.test_cpu {
            seq!["--cpu"@, decimal(c.workers as nat)] + match c.cpu_method {
                Some(m) => seq!["--cpu-method"@, m@],
                None => Seq::<Seq<char>>::empty(),
            }
        } else {
            Seq::<Seq<char>>::empty()
        };
        let memory: Seq<Seq<char>> = if c.test_memory {
            seq!["--vm"@, decimal(c.workers as nat)]
        } else {
            Seq::<Seq<char>>::empty()
        };
        let timeout = seq!["--timeout"@, decimal(c.duration_secs as nat).push('s')];
        let tail = seq!["--metrics-brief"@];
        assert(args =~= cpu + memory + timeout + tail);
        assert forall|i: int| 0 <= i < args.len() implies args[i] != v by {
            if i < cpu.len() {
                assert(args[i] == cpu[i]);
                if i == 0 {
                    assert(cpu[i] == "--cpu"@);
                    assert(cpu[i].last() == 'u');
                } else if i == 1 {
                    assert(cpu[i].last() != 'y');
                } else if i == 2 {
                    assert(cpu[i] == "--cpu-method"@);
                    assert(cpu[i].last() == 'd');
                } else {
                    assert(cpu[i] == c.cpu_method->0@);
                }
            } else if i < cpu.len() + memory.len() {
                assert(args[i] == memory[i - cpu.len()]);
                if i == cpu.len() {
                    assert(memory[0].last() == 'm');
                } else {
                    assert(memory[1].last() != 'y');
                }
            } else if i < cpu.len() + memory.len() + 2 {
                assert(args[i] == timeout[i - cpu.len() - memory.len()]);
                if i == cpu.len() + memory.len() {
                    assert(timeout[0].last() == 't');
                } else {
                    assert(timeout[1].last() == 's');
                }
            } else {
                assert(args[i] == tail[0]);
                assert(tail[0].last() == 'f');
            }
        }
    }
}

/// Where each setting lands among the arguments: a CPU test starts them
/// with `--cpu` and the worker count, followed by `--cpu-method` and the
/// method when one is chosen; a memory test then adds `--vm` and the worker
/// count; the duration in seconds, with an `s`, follows `--timeout`. No
/// argument is added for a stressor that is not tested.
pub proof fn lemma_settings_in_place(c: StressConfig)
    ensures
        c.test_cpu ==> spec_args(c)[0] == "--cpu"@ && spec_args(c)[1] == decimal(c.workers as nat),
        c.test_cpu && c.cpu_method is Some ==> spec_args(c)[2] == "--cpu-method"@ && spec_args(c)[3]
            == c.cpu_method->0@,
        ({
            let m = if c.test_cpu {
                if c.cpu_method is Some { 4int } else { 2int }
            } else {
                0int
            };
            &&& c.test_memory ==> spec_args(c)[m] == "--vm"@ && spec_args(c)[m + 1] == decimal(c.workers as nat)
            &&& spec_args(c)[m + (if c.test_memory { 2int } else { 0int })] == "--timeout"@
            &&& spec_args(c)[m + (if c.test_memory { 3int } else { 1int })] == decimal(c.duration_secs as nat).push('s')
            &&& spec_args(c).len() == m + (if c.test_memory { 2int } else { 0int }) + 3 + (if c.verify { 1int } else { 0int })
        }),
{
}

} // verus!
