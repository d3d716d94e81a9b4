use vstd::prelude::*;

verus! {

/// A user or group, given by number or by name.
#[derive(Debug)]
pub enum Id {
    Nummeric(u32),
    Text(String),
}

/// An [`Id`] with its name as characters.
pub enum IdView {
    Nummeric(u32),
    Text(Seq<char>),
}

impl View for Id {
    type V = IdView;

    open spec fn view(&self) -> IdView {
        match self {
            Id::Nummeric(n) => IdView::Nummeric(*n),
            Id::Text(t) => IdView::Text(t@),
        }
    }
}

/// The settings read from a configuration file.
#[derive(Debug)]
pub struct Local {
    /// The program that is started once every overlay is in place.
    pub executable: String,
    /// Whether directories from the environment join the global search path.
    pub env_path: Option<bool>,
    /// Each provider name with its template paths, in the order they are processed.
    pub secrets: Vec<(String, Vec<String>)>,
    /// Directories searched for providers before the global ones.
    pub search_path: Option<Vec<String>>,
    /// The user the program runs as.
    pub uid: Option<Id>,
    /// The group the program runs as; it overrides the user's primary group.
    pub gid: Option<Id>,
}

/// Settings that hold for every configuration file.
#[derive(Debug)]
pub struct Global {
    /// Directories searched for providers after the local ones.
    pub search_path: Vec<String>,
}

/// A configuration file's settings together with the global ones.
#[derive(Debug)]
pub struct Config {
    pub local: Local,
    pub global: Global,
}

/// The pieces of `s` between the occurrences of `sep`; one piece more than
/// there are separators.
pub open spec fn split_on(s: Seq<char>, sep: char) -> Seq<Seq<char>>
    decreases s.len(),
{
    if s.len() == 0 {
        seq![Seq::empty()]
    } else {
        let head = split_on(s.drop_last(), sep);
        if s.last() == sep {
            head.push(Seq::empty())
        } else {
            head.update(head.len() - 1, head.last().push(s.last()))
        }
    }
}

proof fn lemma_split_on_nonempty(s: Seq<char>, sep: char)
    ensures
        split_on(s, sep).len() >= 1,
    decreases s.len(),
{
    if s.len() > 0 {
        lemma_split_on_nonempty(s.drop_last(), sep);
    }
}

/// Splits `s` at every `sep`.
pub fn split(s: &str, sep: char) -> (r: Vec<String>)
    ensures
        r.deep_view() == split_on(s@, sep),
{
    let n = s.unicode_len();
    let mut pieces: Vec<String> = Vec::new();
    let mut start: usize = 0;
    let mut i: usize = 0;
    assert(s@.subrange(0, 0) =~= Seq::<char>::empty());
    assert(pieces.deep_view() =~= Seq::<Seq<char>>::empty());
    while i < n
        invariant
            n == s@.len(),
            start <= i <= n,
            split_on(s@.subrange(0, i as int), sep) =~= pieces.deep_view().push(
                s@.subrange(start as int, i as int),
            ),
        decreases n - i,
    {
        let c = s.get_char(i);
        proof {
            assert(s@.subrange(0, i + 1).drop_last() =~= s@.subrange(0, i as int));
            lemma_split_on_nonempty(s@.subrange(0, i as int), sep);
        }
        if c == sep {
            let piece = String::from_str(s.substring_char(start, i));
            let ghost before = pieces.deep_view();
            pieces.push(piece);
            assert(pieces.deep_view() =~= before.push(piece@));
            start = i + 1;
            i = i + 1;
            assert(s@.subrange(start as int, i as int) =~= Seq::<char>::empty());
        } else {
            assert(s@.subrange(start as int, i + 1) =~= s@.subrange(start as int, i as int).push(c));
            i = i + 1;
        }
    }
    let last = String::from_str(s.substring_char(start, n));
    let ghost before = pieces.deep_view();
    pieces.push(last);
    assert(pieces.deep_view() =~= before.push(last@));
    assert(s@.subrange(0, n as int) =~= s@);
    pieces
}

/// The global search path: the directories of the environment's path list
/// where the configuration opts in and the list is set, then the two system
/// directories.
pub open spec fn global_search_path(opt_in: Option<bool>, env_path: Option<Seq<char>>) -> Seq<Seq<char>> {
    let from_env = if opt_in == Some(true) && env_path is Some {
        split_on(env_path->0, ':')
    } else {
        Seq::empty()
    };
    from_env + seq!["/etc/tsos.d"@, "/usr/lib/tsos"@]
}

/// The directories searched for a provider: the local ones first, then the
/// global ones.
pub open spec fn search_order_of(local: Option<Seq<Seq<char>>>, global: Seq<Seq<char>>) -> Seq<Seq<char>> {
    match local {
        Some(l) => l + global,
        None => global,
    }
}

impl Config {
    /// Completes the settings of a configuration file with the global search
    /// path; `env_path` is the environment's list of provider directories, if set.
    pub fn new(local: Local, env_path: Option<String>) -> (r: Config)
        ensures
            r.local == local,
            r.global.search_path.deep_view() == global_search_path(
                local.env_path,
                match env_path {
                    Some(p) => Some(p@),
                    None => None,
                },
            ),
    {
        let mut search_path: Vec<String> = Vec::new();
        let opted_in = match local.env_path {
            Some(b) => b,
            None => false,
        };
        if opted_in {
            if let Some(p) = env_path {
                search_path = split(p.as_str(), ':');
            }
        }
        let ghost before = search_path.deep_view();
        search_path.push(String::from_str("/etc/tsos.d"));
        search_path.push(String::from_str("/usr/lib/tsos"));
        assert(search_path.deep_view() =~= before + seq!["/etc/tsos.d"@, "/usr/lib/tsos"@]);
        Config { local, global: Global { search_path } }
    }

    /// The directories searched for a provider, local ones first.
    pub fn search_order(&self) -> (r: Vec<String>)
        ensures
            r.deep_view() == search_order_of(
                match self.local.search_path {
                    Some(l) => Some(l.deep_view()),
                    None => None,
                },
                self.global.search_path.deep_view(),
            ),
    {
        let mut r: Vec<String> = Vec::new();
        if let Some(l) = &self.local.search_path {
            r = l.clone();
            assert(r.deep_view() =~= l.deep_view());
        }
        let g = &self.global.search_path;
        let ghost start = r.deep_view();
        let mut i: usize = 0;
        while i < g.len()
            invariant
                i <= g@.len(),
                r.deep_view() =~= start + g.deep_view().subrange(0, i as int),
            decreases g@.len() - i,
        {
            let ghost before = r.deep_view();
            r.push(g[i].clone());
            assert(r.deep_view() =~= before.push(g@[i as int]@));
            i = i + 1;
        }
        assert(g.deep_view().subrange(0, g@.len() as int) =~= g.deep_view());
        r
    }
}

} // verus!
