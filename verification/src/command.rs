//! The command registry: an immutable table from case-insensitive command
//! names to command identifiers, and the lookup that splits an input line
//! into a command token and its argument text.
use vstd::prelude::*;
use vstd::slice::slice_subrange;
use vstd::slice::slice_to_vec;

verus! {

/// What a matched command line means to the controller.
#[derive(Clone, Copy, PartialEq, Eq, Structural, Debug)]
pub enum CommandId {
    /// Stop the main loop.
    Quit,
    /// Run the argument text as a query.
    Query,
    MoveUp,
    MoveDown,
    MoveLeft,
    MoveRight,
}

/// One row of the table: a lower-case name and the command it stands for.
pub struct CommandEntry {
    pub name: Vec<u8>,
    pub id: CommandId,
}

/// The ASCII lower-case image of one byte.
pub open spec fn lower_byte(b: u8) -> u8 {
    if 65 <= b && b <= 90 {
        (b + 32) as u8
    } else {
        b
    }
}

/// The ASCII lower-case image of a byte string.
pub open spec fn lower_bytes(s: Seq<u8>) -> Seq<u8> {
    s.map_values(|b: u8| lower_byte(b))
}

/// The position of the first space at or after `j`, or the end.
pub open spec fn token_end_from(s: Seq<u8>, j: int) -> int
    decreases s.len() - j,
{
    if j < 0 || j >= s.len() {
        s.len() as int
    } else if s[j] == 32 {
        j
    } else {
        token_end_from(s, j + 1)
    }
}

/// Where the leading command token of an input line ends.
pub open spec fn token_end(s: Seq<u8>) -> int {
    token_end_from(s, 0)
}

/// The leading command token of an input line.
pub open spec fn token_of(s: Seq<u8>) -> Seq<u8> {
    s.subrange(0, token_end(s))
}

/// The argument text after the leading token and the space that ends it.
pub open spec fn rest_of(s: Seq<u8>) -> Seq<u8> {
    if token_end(s) < s.len() {
        s.subrange(token_end(s) + 1, s.len() as int)
    } else {
        Seq::empty()
    }
}

/// An entry's name is non-empty lower-case text without spaces.
pub open spec fn entry_wf(e: CommandEntry) -> bool {
    e.name@.len() > 0 && (forall|k: int|
        0 <= k < e.name@.len() ==> (#[trigger] e.name@[k]) != 32 && lower_byte(e.name@[k])
            == e.name@[k])
}

/// Whether the lower-cased token matches the entry at `i`.
pub open spec fn entry_matches(entries: Seq<CommandEntry>, i: int, tok: Seq<u8>) -> bool {
    0 <= i < entries.len() && entries[i].name@ == lower_bytes(tok)
}

/// The name "quit", as lower-case bytes.
pub open spec fn quit_name() -> Seq<u8> {
    seq![113u8, 117u8, 105u8, 116u8]
}

/// The name "query", as lower-case bytes.
pub open spec fn query_name() -> Seq<u8> {
    seq![113u8, 117u8, 101u8, 114u8, 121u8]
}

/// The name "moveup", as lower-case bytes.
pub open spec fn move_up_name() -> Seq<u8> {
    seq![109u8, 111u8, 118u8, 101u8, 117u8, 112u8]
}

/// The name "movedown", as lower-case bytes.
pub open spec fn move_down_name() -> Seq<u8> {
    seq![109u8, 111u8, 118u8, 101u8, 100u8, 111u8, 119u8, 110u8]
}

/// The name "moveleft", as lower-case bytes.
pub open spec fn move_left_name() -> Seq<u8> {
    seq![109u8, 111u8, 118u8, 101u8, 108u8, 101u8, 102u8, 116u8]
}

/// The name "moveright", as lower-case bytes.
pub open spec fn move_right_name() -> Seq<u8> {
    seq![109u8, 111u8, 118u8, 101u8, 114u8, 105u8, 103u8, 104u8, 116u8]
}

/// The immutable dispatch table, built once at startup.
pub struct CommandRegistry {
    pub entries: Vec<CommandEntry>,
}

impl CommandRegistry {
    /// Every entry is well formed and no two entries share a name, so a
    /// token matches at most one entry.
    pub open spec fn wf(self) -> bool {
        (forall|i: int| 0 <= i < self.entries@.len() ==> entry_wf(#[trigger] self.entries@[i]))
            && (forall|i: int, j: int|
            0 <= i < j < self.entries@.len() ==> self.entries@[i].name@ != self.entries@[j].name@)
    }

    /// Splits the input into a leading token and argument text and finds
    /// the entry whose name equals the token, compared without regard to
    /// ASCII case. Total: any input yields the unique match or nothing.
    pub fn lookup(&self, input: &[u8]) -> (r: Option<(CommandId, Vec<u8>)>)
        requires
            self.wf(),
        ensures
            match r {
                Some(p) => exists|i: int|
                    entry_matches(self.entries@, i, token_of(input@)) && self.entries@[i].id == p.0
                        && p.1@ == rest_of(input@),
                None => forall|i: int| !entry_matches(self.entries@, i, token_of(input@)),
            },
    {
        let n: usize = input.len();
        let mut end: usize = 0;
        while end < n && input[end] != 32
            invariant
                0 <= end <= n,
                n == input@.len(),
                forall|k: int| 0 <= k < end ==> input@[k] != 32,
            decreases n - end,
        {
            end = end + 1;
        }
        proof {
            lemma_token_end_at(input@, 0, end as int);
        }
        let mut tok: Vec<u8> = Vec::new();
        let mut k: usize = 0;
        while k < end
            invariant
                0 <= k <= end <= input@.len(),
                n == input@.len(),
                end as int == token_end(input@),
                tok@.len() == k,
                forall|j: int| 0 <= j < k ==> tok@[j] == lower_byte(input@[j]),
            decreases end - k,
        {
            tok.push(to_lower(input[k]));
            k = k + 1;
        }
        proof {
            assert(tok@ =~= lower_bytes(token_of(input@)));
        }
        let mut i: usize = 0;
        while i < self.entries.len()
            invariant
                self.wf(),
                0 <= i <= self.entries@.len(),
                n == input@.len(),
                tok@ == lower_bytes(token_of(input@)),
                end as int == token_end(input@),
                end <= n,
                forall|j: int| 0 <= j < i ==> !entry_matches(self.entries@, j, token_of(input@)),
            decreases self.entries@.len() - i,
        {
            if eq_bytes(self.entries[i].name.as_slice(), tok.as_slice()) {
                let rest: Vec<u8> = if end < n {
                    slice_to_vec(slice_subrange(input, end + 1, n))
                } else {
                    Vec::new()
                };
                proof {
                    assert(rest@ =~= rest_of(input@));
                    assert(entry_matches(self.entries@, i as int, token_of(input@)));
                }
                return Some((self.entries[i].id, rest));
            }
            i = i + 1;
        }
        None
    }

    /// The built-in command table, exactly these seven entries: quit (also
    /// its short alias q), query, and the four cursor moves.
    pub fn standard() -> (r: CommandRegistry)
        ensures
            r.wf(),
            r.entries@.len() == 7,
            r.entries@[0].name@ == quit_name() && r.entries@[0].id == CommandId::Quit,
            r.entries@[1].name@ == seq![113u8] && r.entries@[1].id == CommandId::Quit,
            r.entries@[2].name@ == query_name() && r.entries@[2].id == CommandId::Query,
            r.entries@[3].name@ == move_up_name() && r.entries@[3].id == CommandId::MoveUp,
            r.entries@[4].name@ == move_down_name() && r.entries@[4].id == CommandId::MoveDown,
            r.entries@[5].name@ == move_left_name() && r.entries@[5].id == CommandId::MoveLeft,
            r.entries@[6].name@ == move_right_name() && r.entries@[6].id == CommandId::MoveRight,
    {
        let mut entries: Vec<CommandEntry> = Vec::new();
        entries.push(CommandEntry { name: vec![113u8, 117, 105, 116], id: CommandId::Quit });
        entries.push(CommandEntry { name: vec![113u8], id: CommandId::Quit });
        entries.push(CommandEntry { name: vec![113u8, 117, 101, 114, 121], id: CommandId::Query });
        entries.push(
            CommandEntry { name: vec![109u8, 111, 118, 101, 117, 112], id: CommandId::MoveUp },
        );
        entries.push(
            CommandEntry {
                name: vec![109u8, 111, 118, 101, 100, 111, 119, 110],
                id: CommandId::MoveDown,
            },
        );
        entries.push(
            CommandEntry {
                name: vec![109u8, 111, 118, 101, 108, 101, 102, 116],
                id: CommandId::MoveLeft,
            },
        );
        entries.push(
            CommandEntry {
                name: vec![109u8, 111, 118, 101, 114, 105, 103, 104, 116],
                id: CommandId::MoveRight,
            },
        );
        let r = CommandRegistry { entries };
        proof {
            let es = r.entries@;
            assert(es.len() == 7);
            assert(entry_wf(es[0]));
            assert(entry_wf(es[1]));
            assert(entry_wf(es[2]));
            assert(entry_wf(es[3]));
            assert(entry_wf(es[4]));
            assert(entry_wf(es[5]));
            assert(entry_wf(es[6]));
            assert(es[4].name@[4] != es[5].name@[4]);
            assert(forall|i: int, j: int|
                0 <= i < j < es.len() ==> es[i].name@.len() != es[j].name@.len() || (#[trigger] es[i].name@)
                    != (#[trigger] es[j].name@));
            assert(es[0].name@ =~= quit_name());
            assert(es[1].name@ =~= seq![113u8]);
            assert(es[2].name@ =~= query_name());
            assert(es[3].name@ =~= move_up_name());
            assert(es[4].name@ =~= move_down_name());
            assert(es[5].name@ =~= move_left_name());
            assert(es[6].name@ =~= move_right_name());
        }
        r
    }
}

/// ASCII lower-casing of one byte.
fn to_lower(b: u8) -> (r: u8)
    ensures
        r == lower_byte(b),
{
    if b >= 65 && b <= 90 {
        b + 32
    } else {
        b
    }
}

/// Byte-string equality.
pub(crate) fn eq_bytes(a: &[u8], b: &[u8]) -> (r: bool)
    ensures
        r == (a@ == b@),
{
    if a.len() != b.len() {
        proof {
            assert(a@.len() != b@.len());
        }
        return false;
    }
    let n: usize = a.len();
    let mut i: usize = 0;
    while i < n
        invariant
            0 <= i <= n,
            n == a@.len() && n == b@.len(),
            forall|k: int| 0 <= k < i ==> a@[k] == b@[k],
        decreases n - i,
    {
        if a[i] != b[i] {
            return false;
        }
        i = i + 1;
    }
    proof {
        assert(a@ =~= b@);
    }
    true
}

/// The token end lies between the scan start and the end of the input.
proof fn lemma_token_end_bounds(s: Seq<u8>, j: int)
    requires
        0 <= j <= s.len(),
    ensures
        j <= token_end_from(s, j) <= s.len(),
    decreases s.len() - j,
{
    if j < s.len() && s[j] != 32 {
        lemma_token_end_bounds(s, j + 1);
    }
}

/// The scan that stops at the first space (or the end) finds `token_end`.
proof fn lemma_token_end_at(s: Seq<u8>, j: int, e: int)
    requires
        0 <= j <= e <= s.len(),
        forall|k: int| j <= k < e ==> s[k] != 32,
        e < s.len() ==> s[e] == 32,
    ensures
        token_end_from(s, j) == e,
    decreases e - j,
{
    if j < e {
        lemma_token_end_at(s, j + 1, e);
    }
}

/// Law: a token matches at most one entry of a well-formed registry.
pub proof fn lemma_lookup_unique(r: CommandRegistry, tok: Seq<u8>, i: int, j: int)
    requires
        r.wf(),
        entry_matches(r.entries@, i, tok),
        entry_matches(r.entries@, j, tok),
    ensures
        i == j,
{
}

/// Two bytes with the same lower-case image are both a space or neither.
proof fn lemma_lower_space(a: u8, b: u8)
    requires
        lower_byte(a) == lower_byte(b),
    ensures
        (a == 32) <==> (b == 32),
{
}

/// Inputs with the same lower-case image break at the same token end.
proof fn lemma_token_end_lower(s1: Seq<u8>, s2: Seq<u8>, j: int)
    requires
        s1.len() == s2.len(),
        forall|k: int| 0 <= k < s1.len() ==> lower_byte(#[trigger] s1[k]) == lower_byte(s2[k]),
        0 <= j <= s1.len(),
    ensures
        token_end_from(s1, j) == token_end_from(s2, j),
    decreases s1.len() - j,
{
    if j < s1.len() {
        lemma_lower_space(s1[j], s2[j]);
        if s1[j] != 32 {
            lemma_token_end_lower(s1, s2, j + 1);
        }
    }
}

/// Law: lookup is case-insensitive. Two input lines whose lower-case
/// images agree carry the same lower-cased command token, so the registry
/// matches them to the same command.
pub proof fn lemma_lookup_case_insensitive(s1: Seq<u8>, s2: Seq<u8>)
    requires
        lower_bytes(s1) == lower_bytes(s2),
    ensures
        lower_bytes(token_of(s1)) == lower_bytes(token_of(s2)),
{
    assert(lower_bytes(s1).len() == s1.len());
    assert(lower_bytes(s2).len() == s2.len());
    assert forall|k: int| 0 <= k < s1.len() implies lower_byte(#[trigger] s1[k]) == lower_byte(
        s2[k],
    ) by {
        assert(lower_bytes(s1)[k] == lower_byte(s1[k]));
        assert(lower_bytes(s2)[k] == lower_byte(s2[k]));
    }
    lemma_token_end_lower(s1, s2, 0);
    lemma_token_end_bounds(s1, 0);
    let te: int = token_end(s1);
    assert(token_end(s2) == te);
    assert forall|k: int| 0 <= k < te implies lower_byte(token_of(s1)[k]) == lower_byte(
        token_of(s2)[k],
    ) by {
        assert(token_of(s1)[k] == s1[k]);
        assert(token_of(s2)[k] == s2[k]);
    }
    assert(lower_bytes(token_of(s1)) =~= lower_bytes(token_of(s2)));
}

} // verus!
