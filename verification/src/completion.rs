//! The command tree that REPL completion walks: each command with its
//! aliases, its subcommands and the words its arguments take.
use crate::text::{str_eq, string_views};
use vstd::prelude::*;
use vstd::string::*;

verus! {

/// A command of the tree.
pub struct CommandNode {
    pub name: String,
    pub aliases: Vec<String>,
    /// the positions of its subcommands in the tree, in order
    pub children: Vec<usize>,
    /// the flags (`--long`, `-s`) and possible values of its arguments, in
    /// order
    pub words: Vec<String>,
}

/// A command tree, kept as a list of commands; the first one is the root.
pub struct CommandTree {
    pub nodes: Vec<CommandNode>,
}

impl CommandTree {
    /// There is a root, and every subcommand position names a command of the
    /// tree.
    pub open spec fn wf(&self) -> bool {
        &&& self.nodes@.len() > 0
        &&& forall|n: int, k: int|
            0 <= n < self.nodes@.len() && 0 <= k < self.nodes@[n].children@.len() ==> (
            #[trigger] self.nodes@[n].children@[k]) < self.nodes@.len()
    }

    /// Whether the tree is well formed (`wf`).
    pub fn is_wf(&self) -> (res: bool)
        ensures
            res == self.wf(),
    {
        if self.nodes.len() == 0 {
            return false;
        }
        let mut n: usize = 0;
        while n < self.nodes.len()
            invariant
                self.nodes@.len() > 0,
                n <= self.nodes@.len(),
                forall|m: int, k: int|
                    0 <= m < n && 0 <= k < self.nodes@[m].children@.len() ==> (
                    #[trigger] self.nodes@[m].children@[k]) < self.nodes@.len(),
            decreases self.nodes.len() - n,
        {
            let kids = &self.nodes[n].children;
            let mut k: usize = 0;
            while k < kids.len()
                invariant
                    n < self.nodes@.len(),
                    kids@ == self.nodes@[n as int].children@,
                    k <= kids@.len(),
                    forall|j: int| 0 <= j < k ==> (#[trigger] kids@[j]) < self.nodes@.len(),
                decreases kids.len() - k,
            {
                if kids[k] >= self.nodes.len() {
                    assert(self.nodes@[n as int].children@[k as int] >= self.nodes@.len());
                    return false;
                }
                k = k + 1;
            }
            n = n + 1;
        }
        true
    }
}

/// Whether `n` is called `tok`, by its name or by one of its aliases.
pub open spec fn answers_to(n: CommandNode, tok: Seq<char>) -> bool {
    n.name@ == tok || string_views(n.aliases@).contains(tok)
}

/// The first of the commands at positions `kids` that is called `tok`.
pub open spec fn first_called(nodes: Seq<CommandNode>, kids: Seq<usize>, tok: Seq<char>) -> Option<usize>
    decreases kids.len(),
{
    if kids.len() == 0 {
        None
    } else if answers_to(nodes[kids[0] as int], tok) {
        Some(kids[0])
    } else {
        first_called(nodes, kids.skip(1), tok)
    }
}

/// The command that the words `tokens` lead to from the command at `node`:
/// each word that names a subcommand goes down to it, and the first word
/// that names none stops the walk.
pub open spec fn walk(nodes: Seq<CommandNode>, node: usize, tokens: Seq<Seq<char>>) -> usize
    decreases tokens.len(),
{
    if tokens.len() == 0 {
        node
    } else {
        match first_called(nodes, nodes[node as int].children@, tokens[0]) {
            Some(c) => walk(nodes, c, tokens.skip(1)),
            None => node,
        }
    }
}

/// The names and aliases of the commands at positions `kids`, in order.
pub open spec fn child_names(nodes: Seq<CommandNode>, kids: Seq<usize>) -> Seq<Seq<char>>
    decreases kids.len(),
{
    if kids.len() == 0 {
        Seq::empty()
    } else {
        let n = nodes[kids.last() as int];
        child_names(nodes, kids.drop_last()) + seq![n.name@] + string_views(n.aliases@)
    }
}

/// What can be typed after the command at `node`: its subcommands with their
/// aliases, then the words of its arguments.
pub open spec fn completion_candidates(nodes: Seq<CommandNode>, node: usize) -> Seq<Seq<char>> {
    child_names(nodes, nodes[node as int].children@) + string_views(nodes[node as int].words@)
}

proof fn lemma_child_names_list_children(nodes: Seq<CommandNode>, kids: Seq<usize>, k: int, j: int)
    requires
        0 <= k < kids.len(),
    ensures
        child_names(nodes, kids).contains(nodes[kids[k] as int].name@),
        0 <= j < nodes[kids[k] as int].aliases@.len() ==> child_names(nodes, kids).contains(
            nodes[kids[k] as int].aliases@[j]@,
        ),
    decreases kids.len(),
{
    let all = child_names(nodes, kids);
    let pre = child_names(nodes, kids.drop_last());
    let n = nodes[kids.last() as int];
    assert(all == pre + seq![n.name@] + string_views(n.aliases@));
    if k == kids.len() - 1 {
        assert(all[pre.len() as int] == n.name@);
        if 0 <= j < n.aliases@.len() {
            assert(all[pre.len() + 1 + j] == n.aliases@[j]@);
        }
    } else {
        lemma_child_names_list_children(nodes, kids.drop_last(), k, j);
        assert(kids.drop_last()[k] == kids[k]);
        let x = nodes[kids[k] as int].name@;
        let i = choose|i: int| 0 <= i < pre.len() && pre[i] == x;
        assert(all[i] == x);
        if 0 <= j < nodes[kids[k] as int].aliases@.len() {
            let y = nodes[kids[k] as int].aliases@[j]@;
            let i2 = choose|i: int| 0 <= i < pre.len() && pre[i] == y;
            assert(all[i2] == y);
        }
    }
}

/// Completion after a command offers every one of its subcommands, by name
/// and by each alias, and every word its arguments take.
pub proof fn lemma_candidates_list_subcommands_and_words(nodes: Seq<CommandNode>, node: usize, k: int, j: int, w: int)
    requires
        0 <= node < nodes.len(),
        0 <= k < nodes[node as int].children@.len(),
    ensures
        completion_candidates(nodes, node).contains(
            nodes[nodes[node as int].children@[k] as int].name@,
        ),
        0 <= j < nodes[nodes[node as int].children@[k] as int].aliases@.len()
            ==> completion_candidates(nodes, node).contains(
            nodes[nodes[node as int].children@[k] as int].aliases@[j]@,
        ),
        0 <= w < nodes[node as int].words@.len() ==> completion_candidates(nodes, node).contains(
            nodes[node as int].words@[w]@,
        ),
{
    let kids = nodes[node as int].children@;
    let names = child_names(nodes, kids);
    let all = completion_candidates(nodes, node);
    lemma_child_names_list_children(nodes, kids, k, j);
    let x = nodes[kids[k] as int].name@;
    let i = choose|i: int| 0 <= i < names.len() && names[i] == x;
    assert(all[i] == x);
    if 0 <= j < nodes[kids[k] as int].aliases@.len() {
        let y = nodes[kids[k] as int].aliases@[j]@;
        let i2 = choose|i: int| 0 <= i < names.len() && names[i] == y;
        assert(all[i2] == y);
    }
    if 0 <= w < nodes[node as int].words@.len() {
        assert(all[names.len() + w] == nodes[node as int].words@[w]@);
    }
}

fn is_called(n: &CommandNode, tok: &str) -> (res: bool)
    ensures
        res == answers_to(*n, tok@),
{
    if str_eq(n.name.as_str(), tok) {
        return true;
    }
    let ghost views = string_views(n.aliases@);
    let mut j: usize = 0;
    while j < n.aliases.len()
        invariant
            views == string_views(n.aliases@),
            j <= n.aliases@.len(),
            n.name@ != tok@,
            forall|k: int| 0 <= k < j ==> views[k] != tok@,
        decreases n.aliases.len() - j,
    {
        if str_eq(n.aliases[j].as_str(), tok) {
            assert(views[j as int] == tok@);
            return true;
        }
        j = j + 1;
    }
    assert(!views.contains(tok@));
    false
}

fn find_child(tree: &CommandTree, node: usize, tok: &str) -> (res: Option<usize>)
    requires
        tree.wf(),
        node < tree.nodes@.len(),
    ensures
        res == first_called(tree.nodes@, tree.nodes@[node as int].children@, tok@),
        res matches Some(c) ==> c < tree.nodes@.len(),
{
    let kids = &tree.nodes[node].children;
    let ghost all = kids@;
    let mut i: usize = 0;
    assert(all.skip(0) =~= all);
    while i < kids.len()
        invariant
            tree.wf(),
            node < tree.nodes@.len(),
            all == tree.nodes@[node as int].children@,
            kids@ == all,
            i <= all.len(),
            first_called(tree.nodes@, all, tok@) == first_called(tree.nodes@, all.skip(i as int), tok@),
        decreases kids.len() - i,
    {
        let c = kids[i];
        assert(all.skip(i as int)[0] == c);
        assert(all.skip(i as int).skip(1) =~= all.skip(i + 1));
        assert(c < tree.nodes@.len());
        if is_called(&tree.nodes[c], tok) {
            return Some(c);
        }
        i = i + 1;
    }
    assert(all.skip(i as int).len() == 0);
    None
}

/// The words that may complete what follows `tokens`: the subcommands (with
/// their aliases) and argument words of the command that `tokens` lead to
/// from the root.
pub fn completion_names(tree: &CommandTree, tokens: &Vec<String>) -> (res: Vec<String>)
    requires
        tree.wf(),
    ensures
        string_views(res@) == completion_candidates(
            tree.nodes@,
            walk(tree.nodes@, 0, string_views(tokens@)),
        ),
{
    let ghost nodes = tree.nodes@;
    let ghost toks = string_views(tokens@);
    let mut node: usize = 0;
    let mut i: usize = 0;
    let mut done = false;
    assert(toks.skip(0) =~= toks);
    while i < tokens.len() && !done
        invariant
            tree.wf(),
            nodes == tree.nodes@,
            toks == string_views(tokens@),
            node < nodes.len(),
            i <= tokens@.len(),
            done ==> walk(nodes, 0, toks) == node,
            !done ==> walk(nodes, 0, toks) == walk(nodes, node, toks.skip(i as int)),
        decreases tokens.len() - i + (if done { 0int } else { 1int }),
    {
        let ghost rest = toks.skip(i as int);
        assert(rest[0] == tokens@[i as int]@);
        assert(rest.skip(1) =~= toks.skip(i + 1));
        match find_child(tree, node, tokens[i].as_str()) {
            Some(c) => {
                node = c;
                i = i + 1;
            },
            None => {
                done = true;
            },
        }
    }
    if !done {
        assert(toks.skip(i as int).len() == 0);
    }
    let kids = &tree.nodes[node].children;
    let ghost kv = kids@;
    let mut res: Vec<String> = Vec::new();
    let mut k: usize = 0;
    while k < kids.len()
        invariant
            tree.wf(),
            nodes == tree.nodes@,
            node < nodes.len(),
            kv == nodes[node as int].children@,
            kids@ == kv,
            k <= kv.len(),
            string_views(res@) == child_names(nodes, kv.take(k as int)),
        decreases kids.len() - k,
    {
        let c = kids[k];
        assert(c < nodes.len());
        let child = &tree.nodes[c];
        let ghost before = string_views(res@);
        res.push(child.name.clone());
        let mut j: usize = 0;
        while j < child.aliases.len()
            invariant
                j <= child.aliases@.len(),
                string_views(res@) == before + seq![child.name@] + string_views(
                    child.aliases@.take(j as int),
                ),
            decreases child.aliases.len() - j,
        {
            let ghost prev = res@;
            res.push(child.aliases[j].clone());
            assert(string_views(res@) =~= string_views(prev).push(child.aliases@[j as int]@));
            j = j + 1;
            assert(string_views(child.aliases@.take(j as int)) =~= string_views(
                child.aliases@.take(j - 1),
            ).push(child.aliases@[j - 1]@));
            assert(string_views(res@) =~= before + seq![child.name@] + string_views(
                child.aliases@.take(j as int),
            ));
        }
        k = k + 1;
        assert(kv.take(k as int).drop_last() =~= kv.take(k - 1));
        assert(child.aliases@.take(j as int) =~= child.aliases@);
        assert(string_views(res@) =~= child_names(nodes, kv.take(k as int)));
    }
    assert(kv.take(k as int) =~= kv);
    let words = &tree.nodes[node].words;
    let ghost names = string_views(res@);
    let mut w: usize = 0;
    while w < words.len()
        invariant
            w <= words@.len(),
            string_views(res@) == names + string_views(words@.take(w as int)),
        decreases words.len() - w,
    {
        let ghost prev = res@;
        res.push(words[w].clone());
        assert(string_views(res@) =~= string_views(prev).push(words@[w as int]@));
        w = w + 1;
        assert(string_views(words@.take(w as int)) =~= string_views(words@.take(w - 1)).push(
            words@[w - 1]@,
        ));
        assert(string_views(res@) =~= names + string_views(words@.take(w as int)));
    }
    assert(words@.take(w as int) =~= words@);
    res
}

} // verus!
