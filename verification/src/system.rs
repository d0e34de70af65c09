//! The system model behind the in-game desktop: user profiles and their
//! on-disk records (one comma-separated line per user), and the spoofed
//! kernel-panic report shown on game over. Reading and writing the records
//! file is the caller's; everything the records mean is verified here.

use vstd::prelude::*;
use vstd::string::StrSliceExecFns;
use vstd::string::StringExecFns;
use crate::defs::Language;
use crate::random::random_in;
use crate::random::random_u64;
use crate::textfmt::decimal_u64;
use crate::textfmt::decimal_u64_padded;
use crate::textfmt::hex_u64;
use crate::textfmt::parse_u32;
use crate::textfmt::spec_decimal;
use crate::textfmt::spec_parse_u32;
use crate::textfmt::spec_split;
use crate::textfmt::split_str;

verus! {

#[derive(Clone, Debug)]
pub struct User {
    pub username: String,
    pub teblig_count: u32,
    pub cihad_count: u32,
    pub tekfir_count: u32,
    pub current_stage: u32,
}

/// The mathematical image of a [`User`].
pub struct UserV {
    pub username: Seq<char>,
    pub teblig_count: u32,
    pub cihad_count: u32,
    pub tekfir_count: u32,
    pub current_stage: u32,
}

impl View for User {
    type V = UserV;

    open spec fn view(&self) -> UserV {
        UserV {
            username: self.username@,
            teblig_count: self.teblig_count,
            cihad_count: self.cihad_count,
            tekfir_count: self.tekfir_count,
            current_stage: self.current_stage,
        }
    }
}

/// The value a record field carries, or `or` when missing or malformed.
pub open spec fn spec_field_or(fields: Seq<Seq<char>>, i: int, or: u32) -> u32 {
    match spec_parse_u32(fields[i]) {
        Some(v) => v,
        None => or,
    }
}

/// The user one record line carries: name and three counts, plus a stage
/// field that older records lack (their stage defaults to 1). Lines with
/// fewer than four fields carry no user.
pub open spec fn spec_user_of_line(line: Seq<char>) -> Option<UserV> {
    let fields = spec_split(line, ',');
    if fields.len() >= 5 {
        Some(
            UserV {
                username: fields[0],
                teblig_count: spec_field_or(fields, 1, 0),
                cihad_count: spec_field_or(fields, 2, 0),
                tekfir_count: spec_field_or(fields, 3, 0),
                current_stage: spec_field_or(fields, 4, 1),
            },
        )
    } else if fields.len() >= 4 {
        Some(
            UserV {
                username: fields[0],
                teblig_count: spec_field_or(fields, 1, 0),
                cihad_count: spec_field_or(fields, 2, 0),
                tekfir_count: spec_field_or(fields, 3, 0),
                current_stage: 1,
            },
        )
    } else {
        None
    }
}

/// The users a whole records file carries, line by line, in file order.
pub open spec fn spec_users_of(lines: Seq<Seq<char>>) -> Seq<UserV>
    decreases lines.len(),
{
    if lines.len() == 0 {
        Seq::empty()
    } else {
        let rest = spec_users_of(lines.drop_first());
        match spec_user_of_line(lines[0]) {
            Some(u) => seq![u] + rest,
            None => rest,
        }
    }
}

/// The record line a user is written as.
pub open spec fn spec_user_line(u: UserV) -> Seq<char> {
    u.username + seq![','] + spec_decimal(u.teblig_count as nat) + seq![',']
        + spec_decimal(u.cihad_count as nat) + seq![','] + spec_decimal(u.tekfir_count as nat)
        + seq![','] + spec_decimal(u.current_stage as nat) + seq!['\n']
}

/// The whole records file for a list of users.
pub open spec fn spec_users_record(users: Seq<UserV>) -> Seq<char>
    decreases users.len(),
{
    if users.len() == 0 {
        Seq::empty()
    } else {
        spec_user_line(users[0]) + spec_users_record(users.drop_first())
    }
}

/// The first position at or after `from` whose user carries `name`, or -1.
pub open spec fn spec_first_named(users: Seq<UserV>, name: Seq<char>, from: int) -> int
    decreases users.len() - from,
{
    if from < 0 || from >= users.len() {
        -1
    } else if users[from].username == name {
        from
    } else {
        spec_first_named(users, name, from + 1)
    }
}

fn parse_user_line(line: &str) -> (user: Option<User>)
    ensures
        (match user {
            Some(u) => Some(u@),
            None => None::<UserV>,
        }) == spec_user_of_line(line@),
{
    let fields = split_str(line, ',');
    if fields.len() >= 4 {
        let teblig_count = match parse_u32(fields[1].as_str()) {
            Some(v) => v,
            None => 0,
        };
        let cihad_count = match parse_u32(fields[2].as_str()) {
            Some(v) => v,
            None => 0,
        };
        let tekfir_count = match parse_u32(fields[3].as_str()) {
            Some(v) => v,
            None => 0,
        };
        let current_stage = if fields.len() >= 5 {
            match parse_u32(fields[4].as_str()) {
                Some(v) => v,
                None => 1,
            }
        } else {
            1
        };
        Some(
            User {
                username: fields[0].clone(),
                teblig_count,
                cihad_count,
                tekfir_count,
                current_stage,
            },
        )
    } else {
        None
    }
}

/// One record line per user, rendered as `parse` reads it back.
fn user_line(u: &User) -> (s: String)
    ensures
        s@ == spec_user_line(u@),
{
    let mut s = u.username.clone();
    s.append(",");
    let teblig = decimal_u64(u.teblig_count as u64);
    s.append(teblig.as_str());
    s.append(",");
    let cihad = decimal_u64(u.cihad_count as u64);
    s.append(cihad.as_str());
    s.append(",");
    let tekfir = decimal_u64(u.tekfir_count as u64);
    s.append(tekfir.as_str());
    s.append(",");
    let stage = decimal_u64(u.current_stage as u64);
    s.append(stage.as_str());
    s.append("\n");
    proof {
        reveal_strlit(",");
        reveal_strlit("\n");
        assert(s@ =~= spec_user_line(u@));
    }
    s
}

/// All the pieces joined back together.
pub open spec fn spec_concat(parts: Seq<Seq<char>>) -> Seq<char>
    decreases parts.len(),
{
    if parts.len() == 0 {
        Seq::empty()
    } else {
        parts[0] + spec_concat(parts.drop_first())
    }
}

proof fn lemma_concat_push(parts: Seq<Seq<char>>, piece: Seq<char>)
    ensures
        spec_concat(parts.push(piece)) == spec_concat(parts) + piece,
    decreases parts.len(),
{
    assert(spec_concat(Seq::<Seq<char>>::empty()) == Seq::<char>::empty());
    if parts.len() == 0 {
        assert(parts.push(piece).drop_first() =~= Seq::<Seq<char>>::empty());
        assert(parts.push(piece)[0] == piece);
        assert(parts =~= Seq::<Seq<char>>::empty());
        assert(spec_concat(parts.push(piece)) =~= spec_concat(parts) + piece);
    } else {
        assert(parts.push(piece).drop_first() =~= parts.drop_first().push(piece));
        assert(parts.push(piece)[0] == parts[0]);
        lemma_concat_push(parts.drop_first(), piece);
        assert(spec_concat(parts.push(piece)) =~= spec_concat(parts) + piece);
    }
}

/// Breaks a text into lines of at most `max_chars` characters: every line
/// but the last is full, the lines joined give the text back, and an empty
/// text gives one empty line.
pub fn wrap_text(text: &str, max_chars: usize) -> (r: Vec<String>)
    requires
        max_chars >= 1,
    ensures
        r@.len() >= 1,
        spec_concat(r@.map_values(|p: String| p@)) == text@,
        forall|i: int| 0 <= i < r@.len() ==> (#[trigger] r@[i])@.len() <= max_chars,
        text@.len() > 0 ==> forall|i: int| 0 <= i < r@.len() ==> (#[trigger] r@[i])@.len() >= 1,
        forall|i: int| 0 <= i < r@.len() - 1 ==> (#[trigger] r@[i])@.len() == max_chars,
        text@.len() == 0 ==> r@.len() == 1 && r@[0]@ == Seq::<char>::empty(),
{
    let len: usize = text.unicode_len();
    let mut r: Vec<String> = Vec::new();
    if len == 0 {
        r.push(String::new());
        proof {
            let views = r@.map_values(|p: String| p@);
            assert(spec_concat(Seq::<Seq<char>>::empty()) == Seq::<char>::empty());
            assert(views.drop_first() =~= Seq::<Seq<char>>::empty());
            assert(views[0] =~= Seq::<char>::empty());
            assert(spec_concat(views) =~= text@);
        }
        return r;
    }
    let mut start: usize = 0;
    while start < len
        invariant
            len == text@.len(),
            max_chars >= 1,
            start <= len,
            spec_concat(r@.map_values(|p: String| p@)) =~= text@.subrange(0, start as int),
            forall|i: int| 0 <= i < r@.len() ==> 1 <= (#[trigger] r@[i])@.len() <= max_chars,
            forall|i: int|
                0 <= i < r@.len() ==> ((#[trigger] r@[i])@.len() == max_chars || (i == r@.len() - 1
                    && start == len)),
        decreases len - start,
    {
        let end: usize = if len - start > max_chars {
            start + max_chars
        } else {
            len
        };
        let chunk = text.substring_char(start, end).to_owned();
        proof {
            let views = r@.map_values(|p: String| p@);
            lemma_concat_push(views, chunk@);
            assert(r@.push(chunk).map_values(|p: String| p@) =~= views.push(chunk@));
            assert(text@.subrange(0, start as int) + text@.subrange(start as int, end as int)
                =~= text@.subrange(0, end as int));
        }
        r.push(chunk);
        start = end;
    }
    proof {
        assert(text@.subrange(0, len as int) =~= text@);
    }
    r
}

/// The width the kernel-panic console wraps its lines at.
pub const PANIC_WRAP_WIDTH: usize = 75;

/// Wraps one report line and appends the resulting lines, leaving what was
/// already there as it was.
fn push_wrapped(lines: &mut Vec<String>, text: &str)
    ensures
        final(lines)@.len() >= old(lines)@.len(),
        forall|i: int| 0 <= i < old(lines)@.len() ==> final(lines)@[i] == old(lines)@[i],
        forall|i: int|
            old(lines)@.len() <= i < final(lines)@.len()
                ==> (#[trigger] final(lines)@[i])@.len() <= PANIC_WRAP_WIDTH,
{
    let chunks = wrap_text(text, PANIC_WRAP_WIDTH);
    let mut k: usize = 0;
    while k < chunks.len()
        invariant
            k <= chunks@.len(),
            forall|i: int| 0 <= i < chunks@.len() ==> (#[trigger] chunks@[i])@.len()
                <= PANIC_WRAP_WIDTH,
            lines@.len() == old(lines)@.len() + k,
            forall|i: int| 0 <= i < old(lines)@.len() ==> lines@[i] == old(lines)@[i],
            forall|i: int|
                old(lines)@.len() <= i < lines@.len() ==> (#[trigger] lines@[i])@.len()
                    <= PANIC_WRAP_WIDTH,
        decreases chunks@.len() - k,
    {
        let chunk = chunks[k].clone();
        assert(chunk@ == chunks@[k as int]@);
        lines.push(chunk);
        k = k + 1;
    }
}

/// The `[   12.345678] ` stamp that begins every report line, carrying a
/// random timestamp the way a kernel log does.
fn panic_stamp() -> (s: String) {
    let secs = random_in(10, 99);
    let micros = random_in(0, 999999);
    let mut s = "[    ".to_owned();
    let secs_text = decimal_u64_padded(secs, 2, false);
    s.append(secs_text.as_str());
    s.append(".");
    let micros_text = decimal_u64_padded(micros, 6, true);
    s.append(micros_text.as_str());
    s.append("] ");
    s
}

pub struct SystemState {
    pub language: Language,
    pub users: Vec<User>,
    pub current_user: Option<User>,
    pub panic_report: Vec<String>,
}

impl SystemState {
    /// Reads the users file, one record per line; lines that carry no user
    /// are passed over.
    pub fn from_records(content: &str) -> (s: SystemState)
        ensures
            s.language == Language::English,
            s.current_user is None,
            s.panic_report@.len() == 0,
            s.users@.map_values(|u: User| u@) == spec_users_of(spec_split(content@, '\n')),
    {
        let ghost all = spec_split(content@, '\n');
        let lines = split_str(content, '\n');
        let mut users: Vec<User> = Vec::new();
        let mut i: usize = 0;
        proof {
            assert(all.subrange(0, all.len() as int) =~= all);
            assert(users@.map_values(|u: User| u@) + spec_users_of(all) =~= spec_users_of(all));
        }
        while i < lines.len()
            invariant
                i <= lines@.len(),
                lines@.map_values(|p: String| p@) == all,
                all == spec_split(content@, '\n'),
                spec_users_of(all) =~= users@.map_values(|u: User| u@) + spec_users_of(
                    all.subrange(i as int, all.len() as int),
                ),
            decreases lines@.len() - i,
        {
            let user = parse_user_line(lines[i].as_str());
            proof {
                assert(all.subrange(i as int, all.len() as int).drop_first() =~= all.subrange(
                    i + 1,
                    all.len() as int,
                ));
            }
            match user {
                Some(u) => {
                    let ghost before = users@.map_values(|x: User| x@);
                    users.push(u);
                    proof {
                        assert(users@.map_values(|x: User| x@) =~= before.push(u@));
                        assert(spec_users_of(all) =~= users@.map_values(|x: User| x@)
                            + spec_users_of(all.subrange(i + 1, all.len() as int)));
                    }
                },
                None => {},
            }
            i = i + 1;
        }
        proof {
            assert(all.subrange(all.len() as int, all.len() as int) =~= Seq::<Seq<char>>::empty());
            assert(spec_users_of(all) =~= users@.map_values(|u: User| u@));
        }
        SystemState {
            language: Language::English,
            users,
            current_user: None,
            panic_report: Vec::new(),
        }
    }

    /// Folds the current user's progress back into the list (matching by
    /// name, first match only) and renders the records file to persist.
    pub fn save_users(&mut self) -> (record: String)
        ensures
            final(self).language == old(self).language,
            final(self).current_user == old(self).current_user,
            final(self).panic_report == old(self).panic_report,
            (old(self).current_user is None ==> final(self).users == old(self).users),
            (old(self).current_user matches Some(c) ==> {
                let users0 = old(self).users@.map_values(|u: User| u@);
                let m = spec_first_named(users0, c@.username, 0);
                &&& (m < 0 ==> final(self).users == old(self).users)
                &&& (m >= 0 ==> final(self).users@.map_values(|u: User| u@) == users0.update(
                    m,
                    c@,
                ))
            }),
            record@ == spec_users_record(final(self).users@.map_values(|u: User| u@)),
    {
        let info: Option<(u32, u32, u32, u32, String)> = match &self.current_user {
            Some(c) => Some(
                (
                    c.teblig_count,
                    c.cihad_count,
                    c.tekfir_count,
                    c.current_stage,
                    c.username.clone(),
                ),
            ),
            None => None,
        };
        if let Some((teblig, cihad, tekfir, stage, name)) = info {
            let ghost users0 = self.users@.map_values(|u: User| u@);
            let mut found: Option<usize> = None;
            let mut i: usize = 0;
            while i < self.users.len() && found.is_none()
                invariant
                    *self == *old(self),
                    i <= self.users@.len(),
                    users0 == self.users@.map_values(|u: User| u@),
                    name@ == old(self).current_user.unwrap()@.username,
                    (found is None ==> spec_first_named(users0, name@, 0) == spec_first_named(
                        users0,
                        name@,
                        i as int,
                    )),
                    (found matches Some(k) ==> k < self.users@.len() && spec_first_named(
                        users0,
                        name@,
                        0,
                    ) == k && users0[k as int].username == name@),
                decreases self.users@.len() - i + (if found is None {
                    1int
                } else {
                    0
                }),
            {
                if self.users[i].username == name {
                    found = Some(i);
                } else {
                    i = i + 1;
                }
            }
            if let Some(k) = found {
                let kept_name = self.users[k].username.clone();
                self.users.set(
                    k,
                    User {
                        username: kept_name,
                        teblig_count: teblig,
                        cihad_count: cihad,
                        tekfir_count: tekfir,
                        current_stage: stage,
                    },
                );
                proof {
                    let c = old(self).current_user.unwrap()@;
                    assert(users0[k as int].username == name@);
                    assert(self.users@[k as int]@ == c);
                    assert(self.users@.map_values(|u: User| u@) =~= users0.update(
                        spec_first_named(users0, name@, 0),
                        c,
                    ));
                }
            }
        }
        let ghost synced = self.users@.map_values(|u: User| u@);
        let mut record = String::new();
        let mut i: usize = 0;
        proof {
            assert(synced.subrange(0, synced.len() as int) =~= synced);
            assert(record@ + spec_users_record(synced) =~= spec_users_record(synced));
        }
        while i < self.users.len()
            invariant
                i <= self.users@.len(),
                synced == self.users@.map_values(|u: User| u@),
                self.users@.len() == synced.len(),
                self.language == old(self).language,
                self.current_user == old(self).current_user,
                self.panic_report == old(self).panic_report,
                (old(self).current_user is None ==> self.users == old(self).users),
                (old(self).current_user matches Some(c) ==> {
                    let users0 = old(self).users@.map_values(|u: User| u@);
                    let m = spec_first_named(users0, c@.username, 0);
                    &&& (m < 0 ==> self.users == old(self).users)
                    &&& (m >= 0 ==> synced == users0.update(m, c@))
                }),
                spec_users_record(synced) =~= record@ + spec_users_record(
                    synced.subrange(i as int, synced.len() as int),
                ),
            decreases self.users@.len() - i,
        {
            let line = user_line(&self.users[i]);
            record.append(line.as_str());
            proof {
                assert(synced.subrange(i as int, synced.len() as int).drop_first() =~= synced
                    .subrange(i + 1, synced.len() as int));
            }
            i = i + 1;
        }
        proof {
            assert(synced.subrange(synced.len() as int, synced.len() as int)
                =~= Seq::<UserV>::empty());
            assert(record@ =~= spec_users_record(synced));
        }
        record
    }

    /// Fills the panic report with a spoofed kernel log: a randomized
    /// panic reason, call trace and register dump, every line wrapped to
    /// the console width, and a reboot prompt after a blank line at the
    /// end. Only the report changes.
    pub fn generate_kernel_panic(&mut self)
        ensures
            final(self).language == old(self).language,
            final(self).users == old(self).users,
            final(self).current_user == old(self).current_user,
            final(self).panic_report@.len() >= 2,
            forall|i: int|
                0 <= i < final(self).panic_report@.len() - 2
                    ==> (#[trigger] final(self).panic_report@[i])@.len() <= PANIC_WRAP_WIDTH,
            final(self).panic_report@[final(self).panic_report@.len() - 2]@
                == Seq::<char>::empty(),
            final(self).panic_report@[final(self).panic_report@.len() - 1]@
                == "Press ENTER to reboot system..."@,
    {
        let reason: &'static str = match random_in(0, 7) {
            0 => "Vibe check failed!",
            1 => "Null pointer dereference in vibe_core.ko",
            2 => "Stack overflow in chill_beats_module",
            3 => "Out of memory: Kill process 'stress' (score 420)",
            4 => "CPU 0: Machine Check Exception: Vibe Overload",
            5 => "Fatal exception in interrupt handler: Bad Vibe",
            _ => "Attempted to kill init! (exit code 0xdeadbeef)",
        };
        let mut raw: Vec<String> = Vec::new();

        let mut line = panic_stamp();
        line.append("Kernel panic - not syncing: ");
        line.append(reason);
        raw.push(line);

        let mut line = panic_stamp();
        line.append(
            "CPU: 0 PID: 420 Comm: vibecoded_game Tainted: G        W  O      6.9.420-vibecoded #1",
        );
        raw.push(line);

        let mut line = panic_stamp();
        line.append(
            "Hardware name: VibeCoded Virtual Machine/Standard PC (Q35 + ICH9, 2009), BIOS 1.0 12/31/2025",
        );
        raw.push(line);

        let mut line = panic_stamp();
        line.append("Call Trace:");
        raw.push(line);

        let mut line = panic_stamp();
        line.append(" <TASK>");
        raw.push(line);

        let mut k: usize = 0;
        while k < 11
            decreases 11 - k,
        {
            let symbol: &'static str = match k {
                0 => "dump_stack",
                1 => "panic",
                2 => "do_exit",
                3 => "__handle_mm_fault",
                4 => "do_group_exit",
                5 => "get_signal",
                6 => "arch_do_signal_or_restart",
                7 => "exit_to_user_mode_prepare",
                8 => "syscall_exit_to_user_mode",
                9 => "do_syscall_64",
                _ => "entry_SYSCALL_64_after_hwframe",
            };
            let offset = random_in(0x10, 0xff);
            let size = random_in(0x100, 0x500);
            let mut line = panic_stamp();
            line.append(" ");
            line.append(symbol);
            line.append("+0x");
            let offset_hex = hex_u64(offset);
            line.append(offset_hex.as_str());
            line.append("/0x");
            let size_hex = hex_u64(size);
            line.append(size_hex.as_str());
            raw.push(line);
            k = k + 1;
        }

        let mut line = panic_stamp();
        line.append("RIP: 0033:0x");
        let rip_hex = hex_u64(random_u64());
        line.append(rip_hex.as_str());
        raw.push(line);

        let mut line = panic_stamp();
        line.append(" </TASK>");
        raw.push(line);

        let mut line = panic_stamp();
        line.append("---[ end Kernel panic - not syncing: ");
        line.append(reason);
        line.append(" ]---");
        raw.push(line);

        let mut lines: Vec<String> = Vec::new();
        let mut k: usize = 0;
        while k < raw.len()
            invariant
                forall|i: int| 0 <= i < lines@.len() ==> (#[trigger] lines@[i])@.len()
                    <= PANIC_WRAP_WIDTH,
            decreases raw@.len() - k,
        {
            push_wrapped(&mut lines, raw[k].as_str());
            k = k + 1;
        }
        lines.push(String::new());
        lines.push("Press ENTER to reboot system...".to_owned());
        self.panic_report = lines;
    }

    /// Moves the chosen profile to the top of the list; an index past the
    /// end changes nothing. The caller persists the list afterwards.
    pub fn set_user_as_top(&mut self, index: usize)
        ensures
            final(self).language == old(self).language,
            final(self).current_user == old(self).current_user,
            final(self).panic_report == old(self).panic_report,
            index < old(self).users@.len() ==> final(self).users@ == seq![
                old(self).users@[index as int],
            ] + old(self).users@.subrange(0, index as int) + old(self).users@.subrange(
                index + 1,
                old(self).users@.len() as int,
            ),
            index >= old(self).users@.len() ==> final(self).users == old(self).users,
    {
        if index < self.users.len() {
            let user = self.users.remove(index);
            self.users.insert(0, user);
            proof {
                assert(self.users@ =~= seq![old(self).users@[index as int]] + old(
                    self,
                ).users@.subrange(0, index as int) + old(self).users@.subrange(
                    index + 1,
                    old(self).users@.len() as int,
                ));
            }
        }
    }
}

} // verus!
