use vstd::prelude::*;

use crate::text::ascii_upper;

verus! {

/// Resource limit types.
#[derive(PartialEq, Eq, Structural, Clone, Copy, Debug, Hash)]
pub enum Rlimit {
    As,
    Core,
    Cpu,
    Data,
    Fsize,
    Locks,
    Memlock,
    Msgqueue,
    Nice,
    Nofile,
    Nproc,
    Rss,
    Rtprio,
    Rttime,
    Sigpending,
    Stack,
}

/// The resources of `setrlimit(2)`, one per `RLIMIT_*` constant.
#[allow(non_camel_case_types)]
#[derive(PartialEq, Eq, Structural, Clone, Copy, Debug, Hash)]
pub enum Resource {
    RLIMIT_AS,
    RLIMIT_CORE,
    RLIMIT_CPU,
    RLIMIT_DATA,
    RLIMIT_FSIZE,
    RLIMIT_LOCKS,
    RLIMIT_MEMLOCK,
    RLIMIT_MSGQUEUE,
    RLIMIT_NICE,
    RLIMIT_NOFILE,
    RLIMIT_NPROC,
    RLIMIT_RSS,
    RLIMIT_RTPRIO,
    RLIMIT_RTTIME,
    RLIMIT_SIGPENDING,
    RLIMIT_STACK,
}

impl Rlimit {
    /// The position of the limit among the sixteen kinds.
    pub open spec fn spec_index(self) -> int {
        match self {
            Rlimit::As => 0,
            Rlimit::Core => 1,
            Rlimit::Cpu => 2,
            Rlimit::Data => 3,
            Rlimit::Fsize => 4,
            Rlimit::Locks => 5,
            Rlimit::Memlock => 6,
            Rlimit::Msgqueue => 7,
            Rlimit::Nice => 8,
            Rlimit::Nofile => 9,
            Rlimit::Nproc => 10,
            Rlimit::Rss => 11,
            Rlimit::Rtprio => 12,
            Rlimit::Rttime => 13,
            Rlimit::Sigpending => 14,
            Rlimit::Stack => 15,
        }
    }

    /// The position of the limit among the sixteen kinds.
    pub fn index(self) -> (i: usize)
        ensures
            i == self.spec_index(),
            i < 16,
    {
        match self {
            Rlimit::As => 0,
            Rlimit::Core => 1,
            Rlimit::Cpu => 2,
            Rlimit::Data => 3,
            Rlimit::Fsize => 4,
            Rlimit::Locks => 5,
            Rlimit::Memlock => 6,
            Rlimit::Msgqueue => 7,
            Rlimit::Nice => 8,
            Rlimit::Nofile => 9,
            Rlimit::Nproc => 10,
            Rlimit::Rss => 11,
            Rlimit::Rtprio => 12,
            Rlimit::Rttime => 13,
            Rlimit::Sigpending => 14,
            Rlimit::Stack => 15,
        }
    }

    /// The `setrlimit(2)` resource that the limit stands for.
    pub open spec fn spec_resource(self) -> Resource {
        match self {
            Rlimit::As => Resource::RLIMIT_AS,
            Rlimit::Core => Resource::RLIMIT_CORE,
            Rlimit::Cpu => Resource::RLIMIT_CPU,
            Rlimit::Data => Resource::RLIMIT_DATA,
            Rlimit::Fsize => Resource::RLIMIT_FSIZE,
            Rlimit::Locks => Resource::RLIMIT_LOCKS,
            Rlimit::Memlock => Resource::RLIMIT_MEMLOCK,
            Rlimit::Msgqueue => Resource::RLIMIT_MSGQUEUE,
            Rlimit::Nice => Resource::RLIMIT_NICE,
            Rlimit::Nofile => Resource::RLIMIT_NOFILE,
            Rlimit::Nproc => Resource::RLIMIT_NPROC,
            Rlimit::Rss => Resource::RLIMIT_RSS,
            Rlimit::Rtprio => Resource::RLIMIT_RTPRIO,
            Rlimit::Rttime => Resource::RLIMIT_RTTIME,
            Rlimit::Sigpending => Resource::RLIMIT_SIGPENDING,
            Rlimit::Stack => Resource::RLIMIT_STACK,
        }
    }

    /// The `setrlimit(2)` resource that the limit stands for.
    pub fn to_resource(self) -> (r: Resource)
        ensures
            r == self.spec_resource(),
            r.spec_name() == "RLIMIT_"@ + self.spec_name().map_values(|c: char| ascii_upper(c)),
    {
        proof {
            lemma_resource_named_alike(self);
        }
        match self {
            Self::As => Resource::RLIMIT_AS,
            Self::Core => Resource::RLIMIT_CORE,
            Self::Cpu => Resource::RLIMIT_CPU,
            Self::Data => Resource::RLIMIT_DATA,
            Self::Fsize => Resource::RLIMIT_FSIZE,
            Self::Locks => Resource::RLIMIT_LOCKS,
            Self::Memlock => Resource::RLIMIT_MEMLOCK,
            Self::Msgqueue => Resource::RLIMIT_MSGQUEUE,
            Self::Nice => Resource::RLIMIT_NICE,
            Self::Nofile => Resource::RLIMIT_NOFILE,
            Self::Nproc => Resource::RLIMIT_NPROC,
            Self::Rss => Resource::RLIMIT_RSS,
            Self::Rtprio => Resource::RLIMIT_RTPRIO,
            Self::Rttime => Resource::RLIMIT_RTTIME,
            Self::Sigpending => Resource::RLIMIT_SIGPENDING,
            Self::Stack => Resource::RLIMIT_STACK,
        }
    }
}

/// The limit at position `i` of the sixteen kinds.
pub open spec fn rlimit_at(i: int) -> Rlimit {
    if i == 0 {
        Rlimit::As
    } else if i == 1 {
        Rlimit::Core
    } else if i == 2 {
        Rlimit::Cpu
    } else if i == 3 {
        Rlimit::Data
    } else if i == 4 {
        Rlimit::Fsize
    } else if i == 5 {
        Rlimit::Locks
    } else if i == 6 {
        Rlimit::Memlock
    } else if i == 7 {
        Rlimit::Msgqueue
    } else if i == 8 {
        Rlimit::Nice
    } else if i == 9 {
        Rlimit::Nofile
    } else if i == 10 {
        Rlimit::Nproc
    } else if i == 11 {
        Rlimit::Rss
    } else if i == 12 {
        Rlimit::Rtprio
    } else if i == 13 {
        Rlimit::Rttime
    } else if i == 14 {
        Rlimit::Sigpending
    } else {
        Rlimit::Stack
    }
}

/// Positions and kinds correspond one to one, and distinct limits stand
/// for distinct resources.
pub proof fn lemma_rlimit_index(r: Rlimit, s: Rlimit)
    ensures
        rlimit_at(r.spec_index()) == r,
        0 <= r.spec_index() < 16,
        r != s ==> r.spec_resource() != s.spec_resource(),
{
}


impl Rlimit {
    /// The name of the limit kind, as the enum spells it.
    pub open spec fn spec_name(self) -> Seq<char> {
        match self {
            Rlimit::As => "As"@,
            Rlimit::Core => "Core"@,
            Rlimit::Cpu => "Cpu"@,
            Rlimit::Data => "Data"@,
            Rlimit::Fsize => "Fsize"@,
            Rlimit::Locks => "Locks"@,
            Rlimit::Memlock => "Memlock"@,
            Rlimit::Msgqueue => "Msgqueue"@,
            Rlimit::Nice => "Nice"@,
            Rlimit::Nofile => "Nofile"@,
            Rlimit::Nproc => "Nproc"@,
            Rlimit::Rss => "Rss"@,
            Rlimit::Rtprio => "Rtprio"@,
            Rlimit::Rttime => "Rttime"@,
            Rlimit::Sigpending => "Sigpending"@,
            Rlimit::Stack => "Stack"@,
        }
    }
}

impl Resource {
    /// The name of the `setrlimit(2)` resource.
    pub open spec fn spec_name(self) -> Seq<char> {
        match self {
            Resource::RLIMIT_AS => "RLIMIT_AS"@,
            Resource::RLIMIT_CORE => "RLIMIT_CORE"@,
            Resource::RLIMIT_CPU => "RLIMIT_CPU"@,
            Resource::RLIMIT_DATA => "RLIMIT_DATA"@,
            Resource::RLIMIT_FSIZE => "RLIMIT_FSIZE"@,
            Resource::RLIMIT_LOCKS => "RLIMIT_LOCKS"@,
            Resource::RLIMIT_MEMLOCK => "RLIMIT_MEMLOCK"@,
            Resource::RLIMIT_MSGQUEUE => "RLIMIT_MSGQUEUE"@,
            Resource::RLIMIT_NICE => "RLIMIT_NICE"@,
            Resource::RLIMIT_NOFILE => "RLIMIT_NOFILE"@,
            Resource::RLIMIT_NPROC => "RLIMIT_NPROC"@,
            Resource::RLIMIT_RSS => "RLIMIT_RSS"@,
            Resource::RLIMIT_RTPRIO => "RLIMIT_RTPRIO"@,
            Resource::RLIMIT_RTTIME => "RLIMIT_RTTIME"@,
            Resource::RLIMIT_SIGPENDING => "RLIMIT_SIGPENDING"@,
            Resource::RLIMIT_STACK => "RLIMIT_STACK"@,
        }
    }
}

/// Each limit kind stands for the `setrlimit(2)` resource of the same
/// name: `RLIMIT_` followed by the kind's name in capitals (`Core` for
/// `RLIMIT_CORE`, `Cpu` for `RLIMIT_CPU`, and so on).
pub proof fn lemma_resource_named_alike(r: Rlimit)
    ensures
        r.spec_resource().spec_name() == "RLIMIT_"@ + r.spec_name().map_values(|c: char| ascii_upper(c)),
{
    reveal_strlit("RLIMIT_");
    match r {
        Rlimit::As => {
            reveal_strlit("As");
            reveal_strlit("RLIMIT_AS");
            assert(r.spec_resource().spec_name() =~= "RLIMIT_"@ + r.spec_name().map_values(|c: char| ascii_upper(c)));
        },
        Rlimit::Core => {
            reveal_strlit("Core");
            reveal_strlit("RLIMIT_CORE");
            assert(r.spec_resource().spec_name() =~= "RLIMIT_"@ + r.spec_name().map_values(|c: char| ascii_upper(c)));
        },
        Rlimit::Cpu => {
            reveal_strlit("Cpu");
            reveal_strlit("RLIMIT_CPU");
            assert(r.spec_resource().spec_name() =~= "RLIMIT_"@ + r.spec_name().map_values(|c: char| ascii_upper(c)));
        },
        Rlimit::Data => {
            reveal_strlit("Data");
            reveal_strlit("RLIMIT_DATA");
            assert(r.spec_resource().spec_name() =~= "RLIMIT_"@ + r.spec_name().map_values(|c: char| ascii_upper(c)));
        },
        Rlimit::Fsize => {
            reveal_strlit("Fsize");
            reveal_strlit("RLIMIT_FSIZE");
            assert(r.spec_resource().spec_name() =~= "RLIMIT_"@ + r.spec_name().map_values(|c: char| ascii_upper(c)));
        },
        Rlimit::Locks => {
            reveal_strlit("Locks");
            reveal_strlit("RLIMIT_LOCKS");
            assert(r.spec_resource().spec_name() =~= "RLIMIT_"@ + r.spec_name().map_values(|c: char| ascii_upper(c)));
        },
        Rlimit::Memlock => {
            reveal_strlit("Memlock");
            reveal_strlit("RLIMIT_MEMLOCK");
            assert(r.spec_resource().spec_name() =~= "RLIMIT_"@ + r.spec_name().map_values(|c: char| ascii_upper(c)));
        },
        Rlimit::Msgqueue => {
            reveal_strlit("Msgqueue");
            reveal_strlit("RLIMIT_MSGQUEUE");
            assert(r.spec_resource().spec_name() =~= "RLIMIT_"@ + r.spec_name().map_values(|c: char| ascii_upper(c)));
        },
        Rlimit::Nice => {
            reveal_strlit("Nice");
            reveal_strlit("RLIMIT_NICE");
            assert(r.spec_resource().spec_name() =~= "RLIMIT_"@ + r.spec_name().map_values(|c: char| ascii_upper(c)));
        },
        Rlimit::Nofile => {
            reveal_strlit("Nofile");
            reveal_strlit("RLIMIT_NOFILE");
            assert(r.spec_resource().spec_name() =~= "RLIMIT_"@ + r.spec_name().map_values(|c: char| ascii_upper(c)));
        },
        Rlimit::Nproc => {
            reveal_strlit("Nproc");
            reveal_strlit("RLIMIT_NPROC");
            assert(r.spec_resource().spec_name() =~= "RLIMIT_"@ + r.spec_name().map_values(|c: char| ascii_upper(c)));
        },
        Rlimit::Rss => {
            reveal_strlit("Rss");
            reveal_strlit("RLIMIT_RSS");
            assert(r.spec_resource().spec_name() =~= "RLIMIT_"@ + r.spec_name().map_values(|c: char| ascii_upper(c)));
        },
        Rlimit::Rtprio => {
            reveal_strlit("Rtprio");
            reveal_strlit("RLIMIT_RTPRIO");
            assert(r.spec_resource().spec_name() =~= "RLIMIT_"@ + r.spec_name().map_values(|c: char| ascii_upper(c)));
        },
        Rlimit::Rttime => {
            reveal_strlit("Rttime");
            reveal_strlit("RLIMIT_RTTIME");
            assert(r.spec_resource().spec_name() =~= "RLIMIT_"@ + r.spec_name().map_values(|c: char| ascii_upper(c)));
        },
        Rlimit::Sigpending => {
            reveal_strlit("Sigpending");
            reveal_strlit("RLIMIT_SIGPENDING");
            assert(r.spec_resource().spec_name() =~= "RLIMIT_"@ + r.spec_name().map_values(|c: char| ascii_upper(c)));
        },
        Rlimit::Stack => {
            reveal_strlit("Stack");
            reveal_strlit("RLIMIT_STACK");
            assert(r.spec_resource().spec_name() =~= "RLIMIT_"@ + r.spec_name().map_values(|c: char| ascii_upper(c)));
        },
    }
}

} // verus!
