//! The two character classes of the version-line pattern, as Unicode 15.1
//! defines them: decimal digits (general category Nd) and word characters
//! (Alphabetic, marks, decimal digits, connector punctuation and the join
//! controls), the classes that `\d` and `\w` stand for in regular expressions.
//!
//! Each class is a sorted table of code point ranges, laid out as a search
//! tree over the ranges' first code points: below a split point lie the
//! ranges before it, from it on the ranges after.
use vstd::prelude::*;

verus! {

/// A Unicode decimal digit: general category Nd.
pub closed spec fn is_decimal_digit(c: char) -> bool {
    let u = c as u32;
    if u < 0xA9D0 {
        if u < 0xF20 {
            if u < 0xB66 {
                if u < 0x966 {
                    if u < 0x6F0 {
                        if u < 0x660 {
                            0x30 <= u <= 0x39
                        } else {
                            0x660 <= u <= 0x669
                        }
                    } else {
                        if u < 0x7C0 {
                            0x6F0 <= u <= 0x6F9
                        } else {
                            0x7C0 <= u <= 0x7C9
                        }
                    }
                } else {
                    if u < 0xA66 {
                        if u < 0x9E6 {
                            0x966 <= u <= 0x96F
                        } else {
                            0x9E6 <= u <= 0x9EF
                        }
                    } else {
                        if u < 0xAE6 {
                            0xA66 <= u <= 0xA6F
                        } else {
                            0xAE6 <= u <= 0xAEF
                        }
                    }
                }
            } else {
                if u < 0xD66 {
                    if u < 0xC66 {
                        if u < 0xBE6 {
                            0xB66 <= u <= 0xB6F
                        } else {
                            0xBE6 <= u <= 0xBEF
                        }
                    } else {
                        if u < 0xCE6 {
                            0xC66 <= u <= 0xC6F
                        } else {
                            0xCE6 <= u <= 0xCEF
                        }
                    }
                } else {
                    if u < 0xE50 {
                        if u < 0xDE6 {
                            0xD66 <= u <= 0xD6F
                        } else {
                            0xDE6 <= u <= 0xDEF
                        }
                    } else {
                        if u < 0xED0 {
                            0xE50 <= u <= 0xE59
                        } else {
                            0xED0 <= u <= 0xED9
                        }
                    }
                }
            }
        } else {
            if u < 0x1A90 {
                if u < 0x1810 {
                    if u < 0x1090 {
                        if u < 0x1040 {
                            0xF20 <= u <= 0xF29
                        } else {
                            0x1040 <= u <= 0x1049
                        }
                    } else {
                        if u < 0x17E0 {
                            0x1090 <= u <= 0x1099
                        } else {
                            0x17E0 <= u <= 0x17E9
                        }
                    }
                } else {
                    if u < 0x19D0 {
                        if u < 0x1946 {
                            0x1810 <= u <= 0x1819
                        } else {
                            0x1946 <= u <= 0x194F
                        }
                    } else {
                        if u < 0x1A80 {
                            0x19D0 <= u <= 0x19D9
                        } else {
                            0x1A80 <= u <= 0x1A89
                        }
                    }
                }
            } else {
                if u < 0x1C50 {
                    if u < 0x1BB0 {
                        if u < 0x1B50 {
                            0x1A90 <= u <= 0x1A99
                        } else {
                            0x1B50 <= u <= 0x1B59
                        }
                    } else {
                        if u < 0x1C40 {
                            0x1BB0 <= u <= 0x1BB9
                        } else {
                            0x1C40 <= u <= 0x1C49
                        }
                    }
                } else {
                    if u < 0xA8D0 {
                        if u < 0xA620 {
                            0x1C50 <= u <= 0x1C59
                        } else {
                            0xA620 <= u <= 0xA629
                        }
                    } else {
                        if u < 0xA900 {
                            0xA8D0 <= u <= 0xA8D9
                        } else {
                            0xA900 <= u <= 0xA909
                        }
                    }
                }
            }
        }
    } else {
        if u < 0x11730 {
            if u < 0x110F0 {
                if u < 0xFF10 {
                    if u < 0xAA50 {
                        if u < 0xA9F0 {
                            0xA9D0 <= u <= 0xA9D9
                        } else {
                            0xA9F0 <= u <= 0xA9F9
                        }
                    } else {
                        if u < 0xABF0 {
                            0xAA50 <= u <= 0xAA59
                        } else {
                            0xABF0 <= u <= 0xABF9
                        }
                    }
                } else {
                    if u < 0x10D30 {
                        if u < 0x104A0 {
                            0xFF10 <= u <= 0xFF19
                        } else {
                            0x104A0 <= u <= 0x104A9
                        }
                    } else {
                        if u < 0x11066 {
                            0x10D30 <= u <= 0x10D39
                        } else {
                            0x11066 <= u <= 0x1106F
                        }
                    }
                }
            } else {
                if u < 0x11450 {
                    if u < 0x111D0 {
                        if u < 0x11136 {
                            0x110F0 <= u <= 0x110F9
                        } else {
                            0x11136 <= u <= 0x1113F
                        }
                    } else {
                        if u < 0x112F0 {
                            0x111D0 <= u <= 0x111D9
                        } else {
                            0x112F0 <= u <= 0x112F9
                        }
                    }
                } else {
                    if u < 0x11650 {
                        if u < 0x114D0 {
                            0x11450 <= u <= 0x11459
                        } else {
                            0x114D0 <= u <= 0x114D9
                        }
                    } else {
                        if u < 0x116C0 {
                            0x11650 <= u <= 0x11659
                        } else {
                            0x116C0 <= u <= 0x116C9
                        }
                    }
                }
            }
        } else {
            if u < 0x16AC0 {
                if u < 0x11D50 {
                    if u < 0x11950 {
                        if u < 0x118E0 {
                            0x11730 <= u <= 0x11739
                        } else {
                            0x118E0 <= u <= 0x118E9
                        }
                    } else {
                        if u < 0x11C50 {
                            0x11950 <= u <= 0x11959
                        } else {
                            0x11C50 <= u <= 0x11C59
                        }
                    }
                } else {
                    if u < 0x11F50 {
                        if u < 0x11DA0 {
                            0x11D50 <= u <= 0x11D59
                        } else {
                            0x11DA0 <= u <= 0x11DA9
                        }
                    } else {
                        if u < 0x16A60 {
                            0x11F50 <= u <= 0x11F59
                        } else {
                            0x16A60 <= u <= 0x16A69
                        }
                    }
                }
            } else {
                if u < 0x1E2F0 {
                    if u < 0x1D7CE {
                        if u < 0x16B50 {
                            0x16AC0 <= u <= 0x16AC9
                        } else {
                            0x16B50 <= u <= 0x16B59
                        }
                    } else {
                        if u < 0x1E140 {
                            0x1D7CE <= u <= 0x1D7FF
                        } else {
                            0x1E140 <= u <= 0x1E149
                        }
                    }
                } else {
                    if u < 0x1E950 {
                        if u < 0x1E4F0 {
                            0x1E2F0 <= u <= 0x1E2F9
                        } else {
                            0x1E4F0 <= u <= 0x1E4F9
                        }
                    } else {
                        if u < 0x1FBF0 {
                            0x1E950 <= u <= 0x1E959
                        } else {
                            0x1FBF0 <= u <= 0x1FBF9
                        }
                    }
                }
            }
        }
    }
}

/// A Unicode word character: Alphabetic, a mark (Mn, Mc, Me), a decimal
/// digit (Nd), connector punctuation (Pc), or a join control.
pub closed spec fn is_word_char(c: char) -> bool {
    let u = c as u32;
    if u < 0xAB09 {
        if u < 0xF00 {
            if u < 0xACB {
                if u < 0x840 {
                    if u < 0x483 {
                        if u < 0x2EC {
                            if u < 0xBA {
                                if u < 0x61 {
                                    if u < 0x41 {
                                        0x30 <= u <= 0x39
                                    } else {
                                        if u < 0x5F {
                                            0x41 <= u <= 0x5A
                                        } else {
                                            u == 0x5F
                                        }
                                    }
                                } else {
                                    if u < 0xAA {
                                        0x61 <= u <= 0x7A
                                    } else {
                                        if u < 0xB5 {
                                            u == 0xAA
                                        } else {
                                            u == 0xB5
                                        }
                                    }
                                }
                            } else {
                                if u < 0xF8 {
                                    if u < 0xC0 {
                                        u == 0xBA
                                    } else {
                                        if u < 0xD8 {
                                            0xC0 <= u <= 0xD6
                                        } else {
                                            0xD8 <= u <= 0xF6
                                        }
                                    }
                                } else {
                                    if u < 0x2C6 {
                                        0xF8 <= u <= 0x2C1
                                    } else {
                                        if u < 0x2E0 {
                                            0x2C6 <= u <= 0x2D1
                                        } else {
                                            0x2E0 <= u <= 0x2E4
                                        }
                                    }
                                }
                            }
                        } else {
                            if u < 0x386 {
                                if u < 0x376 {
                                    if u < 0x2EE {
                                        u == 0x2EC
                                    } else {
                                        if u < 0x300 {
                                            u == 0x2EE
                                        } else {
                                            0x300 <= u <= 0x374
                                        }
                                    }
                                } else {
                                    if u < 0x37A {
                                        0x376 <= u <= 0x377
                                    } else {
                                        if u < 0x37F {
                                            0x37A <= u <= 0x37D
                                        } else {
                                            u == 0x37F
                                        }
                                    }
                                }
                            } else {
                                if u < 0x38E {
                                    if u < 0x388 {
                                        u == 0x386
                                    } else {
                                        if u < 0x38C {
                                            0x388 <= u <= 0x38A
                                        } else {
                                            u == 0x38C
                                        }
                                    }
                                } else {
                                    if u < 0x3A3 {
                                        0x38E <= u <= 0x3A1
                                    } else {
                                        if u < 0x3F7 {
                                            0x3A3 <= u <= 0x3F5
                                        } else {
                                            0x3F7 <= u <= 0x481
                                        }
                                    }
                                }
                            }
                        }
                    } else {
                        if u < 0x620 {
                            if u < 0x5C1 {
                                if u < 0x560 {
                                    if u < 0x531 {
                                        0x483 <= u <= 0x52F
                                    } else {
                                        if u < 0x559 {
                                            0x531 <= u <= 0x556
                                        } else {
                                            u == 0x559
                                        }
                                    }
                                } else {
                                    if u < 0x591 {
                                        0x560 <= u <= 0x588
                                    } else {
                                        if u < 0x5BF {
                                            0x591 <= u <= 0x5BD
                                        } else {
                                            u == 0x5BF
                                        }
                                    }
                                }
                            } else {
                                if u < 0x5D0 {
                                    if u < 0x5C4 {
                                        0x5C1 <= u <= 0x5C2
                                    } else {
                                        if u < 0x5C7 {
                                            0x5C4 <= u <= 0x5C5
                                        } else {
                                            u == 0x5C7
                                        }
                                    }
                                } else {
                                    if u < 0x5EF {
                                        0x5D0 <= u <= 0x5EA
                                    } else {
                                        if u < 0x610 {
                                            0x5EF <= u <= 0x5F2
                                        } else {
                                            0x610 <= u <= 0x61A
                                        }
                                    }
                                }
                            }
                        } else {
                            if u < 0x710 {
                                if u < 0x6DF {
                                    if u < 0x66E {
                                        0x620 <= u <= 0x669
                                    } else {
                                        if u < 0x6D5 {
                                            0x66E <= u <= 0x6D3
                                        } else {
                                            0x6D5 <= u <= 0x6DC
                                        }
                                    }
                                } else {
                                    if u < 0x6EA {
                                        0x6DF <= u <= 0x6E8
                                    } else {
                                        if u < 0x6FF {
                                            0x6EA <= u <= 0x6FC
                                        } else {
                                            u == 0x6FF
                                        }
                                    }
                                }
                            } else {
                                if u < 0x7FA {
                                    if u < 0x74D {
                                        0x710 <= u <= 0x74A
                                    } else {
                                        if u < 0x7C0 {
                                            0x74D <= u <= 0x7B1
                                        } else {
                                            0x7C0 <= u <= 0x7F5
                                        }
                                    }
                                } else {
                                    if u < 0x7FD {
                                        u == 0x7FA
                                    } else {
                                        if u < 0x800 {
                                            u == 0x7FD
                                        } else {
                                            0x800 <= u <= 0x82D
                                        }
                                    }
                                }
                            }
                        }
                    }
                } else {
                    if u < 0xA05 {
                        if u < 0x9B2 {
                            if u < 0x966 {
                                if u < 0x889 {
                                    if u < 0x860 {
                                        0x840 <= u <= 0x85B
                                    } else {
                                        if u < 0x870 {
                                            0x860 <= u <= 0x86A
                                        } else {
                                            0x870 <= u <= 0x887
                                        }
                                    }
                                } else {
                                    if u < 0x898 {
                                        0x889 <= u <= 0x88E
                                    } else {
                                        if u < 0x8E3 {
                                            0x898 <= u <= 0x8E1
                                        } else {
                                            0x8E3 <= u <= 0x963
                                        }
                                    }
                                }
                            } else {
                                if u < 0x98F {
                                    if u < 0x971 {
                                        0x966 <= u <= 0x96F
                                    } else {
                                        if u < 0x985 {
                                            0x971 <= u <= 0x983
                                        } else {
                                            0x985 <= u <= 0x98C
                                        }
                                    }
                                } else {
                                    if u < 0x993 {
                                        0x98F <= u <= 0x990
                                    } else {
                                        if u < 0x9AA {
                                            0x993 <= u <= 0x9A8
                                        } else {
                                            0x9AA <= u <= 0x9B0
                                        }
                                    }
                                }
                            }
                        } else {
                            if u < 0x9DC {
                                if u < 0x9C7 {
                                    if u < 0x9B6 {
                                        u == 0x9B2
                                    } else {
                                        if u < 0x9BC {
                                            0x9B6 <= u <= 0x9B9
                                        } else {
                                            0x9BC <= u <= 0x9C4
                                        }
                                    }
                                } else {
                                    if u < 0x9CB {
                                        0x9C7 <= u <= 0x9C8
                                    } else {
                                        if u < 0x9D7 {
                                            0x9CB <= u <= 0x9CE
                                        } else {
                                            u == 0x9D7
                                        }
                                    }
                                }
                            } else {
                                if u < 0x9FC {
                                    if u < 0x9DF {
                                        0x9DC <= u <= 0x9DD
                                    } else {
                                        if u < 0x9E6 {
                                            0x9DF <= u <= 0x9E3
                                        } else {
                                            0x9E6 <= u <= 0x9F1
                                        }
                                    }
                                } else {
                                    if u < 0x9FE {
                                        u == 0x9FC
                                    } else {
                                        if u < 0xA01 {
                                            u == 0x9FE
                                        } else {
                                            0xA01 <= u <= 0xA03
                                        }
                                    }
                                }
                            }
                        }
                    } else {
                        if u < 0xA59 {
                            if u < 0xA38 {
                                if u < 0xA2A {
                                    if u < 0xA0F {
                                        0xA05 <= u <= 0xA0A
                                    } else {
                                        if u < 0xA13 {
                                            0xA0F <= u <= 0xA10
                                        } else {
                                            0xA13 <= u <= 0xA28
                                        }
                                    }
                                } else {
                                    if u < 0xA32 {
                                        0xA2A <= u <= 0xA30
                                    } else {
                                        if u < 0xA35 {
                                            0xA32 <= u <= 0xA33
                                        } else {
                                            0xA35 <= u <= 0xA36
                                        }
                                    }
                                }
                            } else {
                                if u < 0xA47 {
                                    if u < 0xA3C {
                                        0xA38 <= u <= 0xA39
                                    } else {
                                        if u < 0xA3E {
                                            u == 0xA3C
                                        } else {
                                            0xA3E <= u <= 0xA42
                                        }
                                    }
                                } else {
                                    if u < 0xA4B {
                                        0xA47 <= u <= 0xA48
                                    } else {
                                        if u < 0xA51 {
                                            0xA4B <= u <= 0xA4D
                                        } else {
                                            u == 0xA51
                                        }
                                    }
                                }
                            }
                        } else {
                            if u < 0xA93 {
                                if u < 0xA81 {
                                    if u < 0xA5E {
                                        0xA59 <= u <= 0xA5C
                                    } else {
                                        if u < 0xA66 {
                                            u == 0xA5E
                                        } else {
                                            0xA66 <= u <= 0xA75
                                        }
                                    }
                                } else {
                                    if u < 0xA85 {
                                        0xA81 <= u <= 0xA83
                                    } else {
                                        if u < 0xA8F {
                                            0xA85 <= u <= 0xA8D
                                        } else {
                                            0xA8F <= u <= 0xA91
                                        }
                                    }
                                }
                            } else {
                                if u < 0xAB5 {
                                    if u < 0xAAA {
                                        0xA93 <= u <= 0xAA8
                                    } else {
                                        if u < 0xAB2 {
                                            0xAAA <= u <= 0xAB0
                                        } else {
                                            0xAB2 <= u <= 0xAB3
                                        }
                                    }
                                } else {
                                    if u < 0xABC {
                                        0xAB5 <= u <= 0xAB9
                                    } else {
                                        if u < 0xAC7 {
                                            0xABC <= u <= 0xAC5
                                        } else {
                                            0xAC7 <= u <= 0xAC9
                                        }
                                    }
                                }
                            }
                        }
                    }
                }
            } else {
                if u < 0xC80 {
                    if u < 0xB99 {
                        if u < 0xB3C {
                            if u < 0xB05 {
                                if u < 0xAE6 {
                                    if u < 0xAD0 {
                                        0xACB <= u <= 0xACD
                                    } else {
                                        if u < 0xAE0 {
                                            u == 0xAD0
                                        } else {
                                            0xAE0 <= u <= 0xAE3
                                        }
                                    }
                                } else {
                                    if u < 0xAF9 {
                                        0xAE6 <= u <= 0xAEF
                                    } else {
                                        if u < 0xB01 {
                                            0xAF9 <= u <= 0xAFF
                                        } else {
                                            0xB01 <= u <= 0xB03
                                        }
                                    }
                                }
                            } else {
                                if u < 0xB2A {
                                    if u < 0xB0F {
                                        0xB05 <= u <= 0xB0C
                                    } else {
                                        if u < 0xB13 {
                                            0xB0F <= u <= 0xB10
                                        } else {
                                            0xB13 <= u <= 0xB28
                                        }
                                    }
                                } else {
                                    if u < 0xB32 {
                                        0xB2A <= u <= 0xB30
                                    } else {
                                        if u < 0xB35 {
                                            0xB32 <= u <= 0xB33
                                        } else {
                                            0xB35 <= u <= 0xB39
                                        }
                                    }
                                }
                            }
                        } else {
                            if u < 0xB66 {
                                if u < 0xB55 {
                                    if u < 0xB47 {
                                        0xB3C <= u <= 0xB44
                                    } else {
                                        if u < 0xB4B {
                                            0xB47 <= u <= 0xB48
                                        } else {
                                            0xB4B <= u <= 0xB4D
                                        }
                                    }
                                } else {
                                    if u < 0xB5C {
                                        0xB55 <= u <= 0xB57
                                    } else {
                                        if u < 0xB5F {
                                            0xB5C <= u <= 0xB5D
                                        } else {
                                            0xB5F <= u <= 0xB63
                                        }
                                    }
                                }
                            } else {
                                if u < 0xB85 {
                                    if u < 0xB71 {
                                        0xB66 <= u <= 0xB6F
                                    } else {
                                        if u < 0xB82 {
                                            u == 0xB71
                                        } else {
                                            0xB82 <= u <= 0xB83
                                        }
                                    }
                                } else {
                                    if u < 0xB8E {
                                        0xB85 <= u <= 0xB8A
                                    } else {
                                        if u < 0xB92 {
                                            0xB8E <= u <= 0xB90
                                        } else {
                                            0xB92 <= u <= 0xB95
                                        }
                                    }
                                }
                            }
                        }
                    } else {
                        if u < 0xC00 {
                            if u < 0xBBE {
                                if u < 0xBA3 {
                                    if u < 0xB9C {
                                        0xB99 <= u <= 0xB9A
                                    } else {
                                        if u < 0xB9E {
                                            u == 0xB9C
                                        } else {
                                            0xB9E <= u <= 0xB9F
                                        }
                                    }
                                } else {
                                    if u < 0xBA8 {
                                        0xBA3 <= u <= 0xBA4
                                    } else {
                                        if u < 0xBAE {
                                            0xBA8 <= u <= 0xBAA
                                        } else {
                                            0xBAE <= u <= 0xBB9
                                        }
                                    }
                                }
                            } else {
                                if u < 0xBD0 {
                                    if u < 0xBC6 {
                                        0xBBE <= u <= 0xBC2
                                    } else {
                                        if u < 0xBCA {
                                            0xBC6 <= u <= 0xBC8
                                        } else {
                                            0xBCA <= u <= 0xBCD
                                        }
                                    }
                                } else {
                                    if u < 0xBD7 {
                                        u == 0xBD0
                                    } else {
                                        if u < 0xBE6 {
                                            u == 0xBD7
                                        } else {
                                            0xBE6 <= u <= 0xBEF
                                        }
                                    }
                                }
                            }
                        } else {
                            if u < 0xC4A {
                                if u < 0xC2A {
                                    if u < 0xC0E {
                                        0xC00 <= u <= 0xC0C
                                    } else {
                                        if u < 0xC12 {
                                            0xC0E <= u <= 0xC10
                                        } else {
                                            0xC12 <= u <= 0xC28
                                        }
                                    }
                                } else {
                                    if u < 0xC3C {
                                        0xC2A <= u <= 0xC39
                                    } else {
                                        if u < 0xC46 {
                                            0xC3C <= u <= 0xC44
                                        } else {
                                            0xC46 <= u <= 0xC48
                                        }
                                    }
                                }
                            } else {
                                if u < 0xC5D {
                                    if u < 0xC55 {
                                        0xC4A <= u <= 0xC4D
                                    } else {
                                        if u < 0xC58 {
                                            0xC55 <= u <= 0xC56
                                        } else {
                                            0xC58 <= u <= 0xC5A
                                        }
                                    }
                                } else {
                                    if u < 0xC60 {
                                        u == 0xC5D
                                    } else {
                                        if u < 0xC66 {
                                            0xC60 <= u <= 0xC63
                                        } else {
                                            0xC66 <= u <= 0xC6F
                                        }
                                    }
                                }
                            }
                        }
                    }
                } else {
                    if u < 0xD85 {
                        if u < 0xCE6 {
                            if u < 0xCBC {
                                if u < 0xC92 {
                                    if u < 0xC85 {
                                        0xC80 <= u <= 0xC83
                                    } else {
                                        if u < 0xC8E {
                                            0xC85 <= u <= 0xC8C
                                        } else {
                                            0xC8E <= u <= 0xC90
                                        }
                                    }
                                } else {
                                    if u < 0xCAA {
                                        0xC92 <= u <= 0xCA8
                                    } else {
                                        if u < 0xCB5 {
                                            0xCAA <= u <= 0xCB3
                                        } else {
                                            0xCB5 <= u <= 0xCB9
                                        }
                                    }
                                }
                            } else {
                                if u < 0xCD5 {
                                    if u < 0xCC6 {
                                        0xCBC <= u <= 0xCC4
                                    } else {
                                        if u < 0xCCA {
                                            0xCC6 <= u <= 0xCC8
                                        } else {
                                            0xCCA <= u <= 0xCCD
                                        }
                                    }
                                } else {
                                    if u < 0xCDD {
                                        0xCD5 <= u <= 0xCD6
                                    } else {
                                        if u < 0xCE0 {
                                            0xCDD <= u <= 0xCDE
                                        } else {
                                            0xCE0 <= u <= 0xCE3
                                        }
                                    }
                                }
                            }
                        } else {
                            if u < 0xD4A {
                                if u < 0xD0E {
                                    if u < 0xCF1 {
                                        0xCE6 <= u <= 0xCEF
                                    } else {
                                        if u < 0xD00 {
                                            0xCF1 <= u <= 0xCF3
                                        } else {
                                            0xD00 <= u <= 0xD0C
                                        }
                                    }
                                } else {
                                    if u < 0xD12 {
                                        0xD0E <= u <= 0xD10
                                    } else {
                                        if u < 0xD46 {
                                            0xD12 <= u <= 0xD44
                                        } else {
                                            0xD46 <= u <= 0xD48
                                        }
                                    }
                                }
                            } else {
                                if u < 0xD66 {
                                    if u < 0xD54 {
                                        0xD4A <= u <= 0xD4E
                                    } else {
                                        if u < 0xD5F {
                                            0xD54 <= u <= 0xD57
                                        } else {
                                            0xD5F <= u <= 0xD63
                                        }
                                    }
                                } else {
                                    if u < 0xD7A {
                                        0xD66 <= u <= 0xD6F
                                    } else {
                                        if u < 0xD81 {
                                            0xD7A <= u <= 0xD7F
                                        } else {
                                            0xD81 <= u <= 0xD83
                                        }
                                    }
                                }
                            }
                        }
                    } else {
                        if u < 0xE40 {
                            if u < 0xDCF {
                                if u < 0xDBD {
                                    if u < 0xD9A {
                                        0xD85 <= u <= 0xD96
                                    } else {
                                        if u < 0xDB3 {
                                            0xD9A <= u <= 0xDB1
                                        } else {
                                            0xDB3 <= u <= 0xDBB
                                        }
                                    }
                                } else {
                                    if u < 0xDC0 {
                                        u == 0xDBD
                                    } else {
                                        if u < 0xDCA {
                                            0xDC0 <= u <= 0xDC6
                                        } else {
                                            u == 0xDCA
                                        }
                                    }
                                }
                            } else {
                                if u < 0xDE6 {
                                    if u < 0xDD6 {
                                        0xDCF <= u <= 0xDD4
                                    } else {
                                        if u < 0xDD8 {
                                            u == 0xDD6
                                        } else {
                                            0xDD8 <= u <= 0xDDF
                                        }
                                    }
                                } else {
                                    if u < 0xDF2 {
                                        0xDE6 <= u <= 0xDEF
                                    } else {
                                        if u < 0xE01 {
                                            0xDF2 <= u <= 0xDF3
                                        } else {
                                            0xE01 <= u <= 0xE3A
                                        }
                                    }
                                }
                            }
                        } else {
                            if u < 0xEA5 {
                                if u < 0xE84 {
                                    if u < 0xE50 {
                                        0xE40 <= u <= 0xE4E
                                    } else {
                                        if u < 0xE81 {
                                            0xE50 <= u <= 0xE59
                                        } else {
                                            0xE81 <= u <= 0xE82
                                        }
                                    }
                                } else {
                                    if u < 0xE86 {
                                        u == 0xE84
                                    } else {
                                        if u < 0xE8C {
                                            0xE86 <= u <= 0xE8A
                                        } else {
                                            0xE8C <= u <= 0xEA3
                                        }
                                    }
                                }
                            } else {
                                if u < 0xEC6 {
                                    if u < 0xEA7 {
                                        u == 0xEA5
                                    } else {
                                        if u < 0xEC0 {
                                            0xEA7 <= u <= 0xEBD
                                        } else {
                                            0xEC0 <= u <= 0xEC4
                                        }
                                    }
                                } else {
                                    if u < 0xED0 {
                                        if u < 0xEC8 {
                                            u == 0xEC6
                                        } else {
                                            0xEC8 <= u <= 0xECE
                                        }
                                    } else {
                                        if u < 0xEDC {
                                            0xED0 <= u <= 0xED9
                                        } else {
                                            0xEDC <= u <= 0xEDF
                                        }
                                    }
                                }
                            }
                        }
                    }
                }
            }
        } else {
            if u < 0x1FBE {
                if u < 0x1772 {
                    if u < 0x128A {
                        if u < 0x1000 {
                            if u < 0xF3E {
                                if u < 0xF35 {
                                    if u < 0xF18 {
                                        u == 0xF00
                                    } else {
                                        if u < 0xF20 {
                                            0xF18 <= u <= 0xF19
                                        } else {
                                            0xF20 <= u <= 0xF29
                                        }
                                    }
                                } else {
                                    if u < 0xF37 {
                                        u == 0xF35
                                    } else {
                                        if u < 0xF39 {
                                            u == 0xF37
                                        } else {
                                            u == 0xF39
                                        }
                                    }
                                }
                            } else {
                                if u < 0xF86 {
                                    if u < 0xF49 {
                                        0xF3E <= u <= 0xF47
                                    } else {
                                        if u < 0xF71 {
                                            0xF49 <= u <= 0xF6C
                                        } else {
                                            0xF71 <= u <= 0xF84
                                        }
                                    }
                                } else {
                                    if u < 0xF99 {
                                        0xF86 <= u <= 0xF97
                                    } else {
                                        if u < 0xFC6 {
                                            0xF99 <= u <= 0xFBC
                                        } else {
                                            u == 0xFC6
                                        }
                                    }
                                }
                            }
                        } else {
                            if u < 0x10FC {
                                if u < 0x10C7 {
                                    if u < 0x1050 {
                                        0x1000 <= u <= 0x1049
                                    } else {
                                        if u < 0x10A0 {
                                            0x1050 <= u <= 0x109D
                                        } else {
                                            0x10A0 <= u <= 0x10C5
                                        }
                                    }
                                } else {
                                    if u < 0x10CD {
                                        u == 0x10C7
                                    } else {
                                        if u < 0x10D0 {
                                            u == 0x10CD
                                        } else {
                                            0x10D0 <= u <= 0x10FA
                                        }
                                    }
                                }
                            } else {
                                if u < 0x1258 {
                                    if u < 0x124A {
                                        0x10FC <= u <= 0x1248
                                    } else {
                                        if u < 0x1250 {
                                            0x124A <= u <= 0x124D
                                        } else {
                                            0x1250 <= u <= 0x1256
                                        }
                                    }
                                } else {
                                    if u < 0x125A {
                                        u == 0x1258
                                    } else {
                                        if u < 0x1260 {
                                            0x125A <= u <= 0x125D
                                        } else {
                                            0x1260 <= u <= 0x1288
                                        }
                                    }
                                }
                            }
                        }
                    } else {
                        if u < 0x13A0 {
                            if u < 0x12C8 {
                                if u < 0x12B8 {
                                    if u < 0x1290 {
                                        0x128A <= u <= 0x128D
                                    } else {
                                        if u < 0x12B2 {
                                            0x1290 <= u <= 0x12B0
                                        } else {
                                            0x12B2 <= u <= 0x12B5
                                        }
                                    }
                                } else {
                                    if u < 0x12C0 {
                                        0x12B8 <= u <= 0x12BE
                                    } else {
                                        if u < 0x12C2 {
                                            u == 0x12C0
                                        } else {
                                            0x12C2 <= u <= 0x12C5
                                        }
                                    }
                                }
                            } else {
                                if u < 0x1318 {
                                    if u < 0x12D8 {
                                        0x12C8 <= u <= 0x12D6
                                    } else {
                                        if u < 0x1312 {
                                            0x12D8 <= u <= 0x1310
                                        } else {
                                            0x1312 <= u <= 0x1315
                                        }
                                    }
                                } else {
                                    if u < 0x135D {
                                        0x1318 <= u <= 0x135A
                                    } else {
                                        if u < 0x1380 {
                                            0x135D <= u <= 0x135F
                                        } else {
                                            0x1380 <= u <= 0x138F
                                        }
                                    }
                                }
                            }
                        } else {
                            if u < 0x16EE {
                                if u < 0x166F {
                                    if u < 0x13F8 {
                                        0x13A0 <= u <= 0x13F5
                                    } else {
                                        if u < 0x1401 {
                                            0x13F8 <= u <= 0x13FD
                                        } else {
                                            0x1401 <= u <= 0x166C
                                        }
                                    }
                                } else {
                                    if u < 0x1681 {
                                        0x166F <= u <= 0x167F
                                    } else {
                                        if u < 0x16A0 {
                                            0x1681 <= u <= 0x169A
                                        } else {
                                            0x16A0 <= u <= 0x16EA
                                        }
                                    }
                                }
                            } else {
                                if u < 0x1740 {
                                    if u < 0x1700 {
                                        0x16EE <= u <= 0x16F8
                                    } else {
                                        if u < 0x171F {
                                            0x1700 <= u <= 0x1715
                                        } else {
                                            0x171F <= u <= 0x1734
                                        }
                                    }
                                } else {
                                    if u < 0x1760 {
                                        0x1740 <= u <= 0x1753
                                    } else {
                                        if u < 0x176E {
                                            0x1760 <= u <= 0x176C
                                        } else {
                                            0x176E <= u <= 0x1770
                                        }
                                    }
                                }
                            }
                        }
                    }
                } else {
                    if u < 0x1AB0 {
                        if u < 0x1930 {
                            if u < 0x180F {
                                if u < 0x17DC {
                                    if u < 0x1780 {
                                        0x1772 <= u <= 0x1773
                                    } else {
                                        if u < 0x17D7 {
                                            0x1780 <= u <= 0x17D3
                                        } else {
                                            u == 0x17D7
                                        }
                                    }
                                } else {
                                    if u < 0x17E0 {
                                        0x17DC <= u <= 0x17DD
                                    } else {
                                        if u < 0x180B {
                                            0x17E0 <= u <= 0x17E9
                                        } else {
                                            0x180B <= u <= 0x180D
                                        }
                                    }
                                }
                            } else {
                                if u < 0x18B0 {
                                    if u < 0x1820 {
                                        0x180F <= u <= 0x1819
                                    } else {
                                        if u < 0x1880 {
                                            0x1820 <= u <= 0x1878
                                        } else {
                                            0x1880 <= u <= 0x18AA
                                        }
                                    }
                                } else {
                                    if u < 0x1900 {
                                        0x18B0 <= u <= 0x18F5
                                    } else {
                                        if u < 0x1920 {
                                            0x1900 <= u <= 0x191E
                                        } else {
                                            0x1920 <= u <= 0x192B
                                        }
                                    }
                                }
                            }
                        } else {
                            if u < 0x1A00 {
                                if u < 0x1980 {
                                    if u < 0x1946 {
                                        0x1930 <= u <= 0x193B
                                    } else {
                                        if u < 0x1970 {
                                            0x1946 <= u <= 0x196D
                                        } else {
                                            0x1970 <= u <= 0x1974
                                        }
                                    }
                                } else {
                                    if u < 0x19B0 {
                                        0x1980 <= u <= 0x19AB
                                    } else {
                                        if u < 0x19D0 {
                                            0x19B0 <= u <= 0x19C9
                                        } else {
                                            0x19D0 <= u <= 0x19D9
                                        }
                                    }
                                }
                            } else {
                                if u < 0x1A7F {
                                    if u < 0x1A20 {
                                        0x1A00 <= u <= 0x1A1B
                                    } else {
                                        if u < 0x1A60 {
                                            0x1A20 <= u <= 0x1A5E
                                        } else {
                                            0x1A60 <= u <= 0x1A7C
                                        }
                                    }
                                } else {
                                    if u < 0x1A90 {
                                        0x1A7F <= u <= 0x1A89
                                    } else {
                                        if u < 0x1AA7 {
                                            0x1A90 <= u <= 0x1A99
                                        } else {
                                            u == 0x1AA7
                                        }
                                    }
                                }
                            }
                        }
                    } else {
                        if u < 0x1CD4 {
                            if u < 0x1C40 {
                                if u < 0x1B6B {
                                    if u < 0x1B00 {
                                        0x1AB0 <= u <= 0x1ACE
                                    } else {
                                        if u < 0x1B50 {
                                            0x1B00 <= u <= 0x1B4C
                                        } else {
                                            0x1B50 <= u <= 0x1B59
                                        }
                                    }
                                } else {
                                    if u < 0x1B80 {
                                        0x1B6B <= u <= 0x1B73
                                    } else {
                                        if u < 0x1C00 {
                                            0x1B80 <= u <= 0x1BF3
                                        } else {
                                            0x1C00 <= u <= 0x1C37
                                        }
                                    }
                                }
                            } else {
                                if u < 0x1C90 {
                                    if u < 0x1C4D {
                                        0x1C40 <= u <= 0x1C49
                                    } else {
                                        if u < 0x1C80 {
                                            0x1C4D <= u <= 0x1C7D
                                        } else {
                                            0x1C80 <= u <= 0x1C88
                                        }
                                    }
                                } else {
                                    if u < 0x1CBD {
                                        0x1C90 <= u <= 0x1CBA
                                    } else {
                                        if u < 0x1CD0 {
                                            0x1CBD <= u <= 0x1CBF
                                        } else {
                                            0x1CD0 <= u <= 0x1CD2
                                        }
                                    }
                                }
                            }
                        } else {
                            if u < 0x1F59 {
                                if u < 0x1F20 {
                                    if u < 0x1D00 {
                                        0x1CD4 <= u <= 0x1CFA
                                    } else {
                                        if u < 0x1F18 {
                                            0x1D00 <= u <= 0x1F15
                                        } else {
                                            0x1F18 <= u <= 0x1F1D
                                        }
                                    }
                                } else {
                                    if u < 0x1F48 {
                                        0x1F20 <= u <= 0x1F45
                                    } else {
                                        if u < 0x1F50 {
                                            0x1F48 <= u <= 0x1F4D
                                        } else {
                                            0x1F50 <= u <= 0x1F57
                                        }
                                    }
                                }
                            } else {
                                if u < 0x1F5F {
                                    if u < 0x1F5B {
                                        u == 0x1F59
                                    } else {
                                        if u < 0x1F5D {
                                            u == 0x1F5B
                                        } else {
                                            u == 0x1F5D
                                        }
                                    }
                                } else {
                                    if u < 0x1F80 {
                                        0x1F5F <= u <= 0x1F7D
                                    } else {
                                        if u < 0x1FB6 {
                                            0x1F80 <= u <= 0x1FB4
                                        } else {
                                            0x1FB6 <= u <= 0x1FBC
                                        }
                                    }
                                }
                            }
                        }
                    }
                }
            } else {
                if u < 0x3005 {
                    if u < 0x212F {
                        if u < 0x207F {
                            if u < 0x1FF2 {
                                if u < 0x1FD0 {
                                    if u < 0x1FC2 {
                                        u == 0x1FBE
                                    } else {
                                        if u < 0x1FC6 {
                                            0x1FC2 <= u <= 0x1FC4
                                        } else {
                                            0x1FC6 <= u <= 0x1FCC
                                        }
                                    }
                                } else {
                                    if u < 0x1FD6 {
                                        0x1FD0 <= u <= 0x1FD3
                                    } else {
                                        if u < 0x1FE0 {
                                            0x1FD6 <= u <= 0x1FDB
                                        } else {
                                            0x1FE0 <= u <= 0x1FEC
                                        }
                                    }
                                }
                            } else {
                                if u < 0x203F {
                                    if u < 0x1FF6 {
                                        0x1FF2 <= u <= 0x1FF4
                                    } else {
                                        if u < 0x200C {
                                            0x1FF6 <= u <= 0x1FFC
                                        } else {
                                            0x200C <= u <= 0x200D
                                        }
                                    }
                                } else {
                                    if u < 0x2054 {
                                        0x203F <= u <= 0x2040
                                    } else {
                                        if u < 0x2071 {
                                            u == 0x2054
                                        } else {
                                            u == 0x2071
                                        }
                                    }
                                }
                            }
                        } else {
                            if u < 0x2115 {
                                if u < 0x2102 {
                                    if u < 0x2090 {
                                        u == 0x207F
                                    } else {
                                        if u < 0x20D0 {
                                            0x2090 <= u <= 0x209C
                                        } else {
                                            0x20D0 <= u <= 0x20F0
                                        }
                                    }
                                } else {
                                    if u < 0x2107 {
                                        u == 0x2102
                                    } else {
                                        if u < 0x210A {
                                            u == 0x2107
                                        } else {
                                            0x210A <= u <= 0x2113
                                        }
                                    }
                                }
                            } else {
                                if u < 0x2126 {
                                    if u < 0x2119 {
                                        u == 0x2115
                                    } else {
                                        if u < 0x2124 {
                                            0x2119 <= u <= 0x211D
                                        } else {
                                            u == 0x2124
                                        }
                                    }
                                } else {
                                    if u < 0x2128 {
                                        u == 0x2126
                                    } else {
                                        if u < 0x212A {
                                            u == 0x2128
                                        } else {
                                            0x212A <= u <= 0x212D
                                        }
                                    }
                                }
                            }
                        }
                    } else {
                        if u < 0x2D6F {
                            if u < 0x2C00 {
                                if u < 0x214E {
                                    if u < 0x213C {
                                        0x212F <= u <= 0x2139
                                    } else {
                                        if u < 0x2145 {
                                            0x213C <= u <= 0x213F
                                        } else {
                                            0x2145 <= u <= 0x2149
                                        }
                                    }
                                } else {
                                    if u < 0x2160 {
                                        u == 0x214E
                                    } else {
                                        if u < 0x24B6 {
                                            0x2160 <= u <= 0x2188
                                        } else {
                                            0x24B6 <= u <= 0x24E9
                                        }
                                    }
                                }
                            } else {
                                if u < 0x2D27 {
                                    if u < 0x2CEB {
                                        0x2C00 <= u <= 0x2CE4
                                    } else {
                                        if u < 0x2D00 {
                                            0x2CEB <= u <= 0x2CF3
                                        } else {
                                            0x2D00 <= u <= 0x2D25
                                        }
                                    }
                                } else {
                                    if u < 0x2D2D {
                                        u == 0x2D27
                                    } else {
                                        if u < 0x2D30 {
                                            u == 0x2D2D
                                        } else {
                                            0x2D30 <= u <= 0x2D67
                                        }
                                    }
                                }
                            }
                        } else {
                            if u < 0x2DC0 {
                                if u < 0x2DA8 {
                                    if u < 0x2D7F {
                                        u == 0x2D6F
                                    } else {
                                        if u < 0x2DA0 {
                                            0x2D7F <= u <= 0x2D96
                                        } else {
                                            0x2DA0 <= u <= 0x2DA6
                                        }
                                    }
                                } else {
                                    if u < 0x2DB0 {
                                        0x2DA8 <= u <= 0x2DAE
                                    } else {
                                        if u < 0x2DB8 {
                                            0x2DB0 <= u <= 0x2DB6
                                        } else {
                                            0x2DB8 <= u <= 0x2DBE
                                        }
                                    }
                                }
                            } else {
                                if u < 0x2DD8 {
                                    if u < 0x2DC8 {
                                        0x2DC0 <= u <= 0x2DC6
                                    } else {
                                        if u < 0x2DD0 {
                                            0x2DC8 <= u <= 0x2DCE
                                        } else {
                                            0x2DD0 <= u <= 0x2DD6
                                        }
                                    }
                                } else {
                                    if u < 0x2DE0 {
                                        0x2DD8 <= u <= 0x2DDE
                                    } else {
                                        if u < 0x2E2F {
                                            0x2DE0 <= u <= 0x2DFF
                                        } else {
                                            u == 0x2E2F
                                        }
                                    }
                                }
                            }
                        }
                    }
                } else {
                    if u < 0xA7D0 {
                        if u < 0x31F0 {
                            if u < 0x309D {
                                if u < 0x3038 {
                                    if u < 0x3021 {
                                        0x3005 <= u <= 0x3007
                                    } else {
                                        if u < 0x3031 {
                                            0x3021 <= u <= 0x302F
                                        } else {
                                            0x3031 <= u <= 0x3035
                                        }
                                    }
                                } else {
                                    if u < 0x3041 {
                                        0x3038 <= u <= 0x303C
                                    } else {
                                        if u < 0x3099 {
                                            0x3041 <= u <= 0x3096
                                        } else {
                                            0x3099 <= u <= 0x309A
                                        }
                                    }
                                }
                            } else {
                                if u < 0x3105 {
                                    if u < 0x30A1 {
                                        0x309D <= u <= 0x309F
                                    } else {
                                        if u < 0x30FC {
                                            0x30A1 <= u <= 0x30FA
                                        } else {
                                            0x30FC <= u <= 0x30FF
                                        }
                                    }
                                } else {
                                    if u < 0x3131 {
                                        0x3105 <= u <= 0x312F
                                    } else {
                                        if u < 0x31A0 {
                                            0x3131 <= u <= 0x318E
                                        } else {
                                            0x31A0 <= u <= 0x31BF
                                        }
                                    }
                                }
                            }
                        } else {
                            if u < 0xA640 {
                                if u < 0xA4D0 {
                                    if u < 0x3400 {
                                        0x31F0 <= u <= 0x31FF
                                    } else {
                                        if u < 0x4E00 {
                                            0x3400 <= u <= 0x4DBF
                                        } else {
                                            0x4E00 <= u <= 0xA48C
                                        }
                                    }
                                } else {
                                    if u < 0xA500 {
                                        0xA4D0 <= u <= 0xA4FD
                                    } else {
                                        if u < 0xA610 {
                                            0xA500 <= u <= 0xA60C
                                        } else {
                                            0xA610 <= u <= 0xA62B
                                        }
                                    }
                                }
                            } else {
                                if u < 0xA717 {
                                    if u < 0xA674 {
                                        0xA640 <= u <= 0xA672
                                    } else {
                                        if u < 0xA67F {
                                            0xA674 <= u <= 0xA67D
                                        } else {
                                            0xA67F <= u <= 0xA6F1
                                        }
                                    }
                                } else {
                                    if u < 0xA722 {
                                        0xA717 <= u <= 0xA71F
                                    } else {
                                        if u < 0xA78B {
                                            0xA722 <= u <= 0xA788
                                        } else {
                                            0xA78B <= u <= 0xA7CA
                                        }
                                    }
                                }
                            }
                        }
                    } else {
                        if u < 0xA960 {
                            if u < 0xA880 {
                                if u < 0xA7F2 {
                                    if u < 0xA7D3 {
                                        0xA7D0 <= u <= 0xA7D1
                                    } else {
                                        if u < 0xA7D5 {
                                            u == 0xA7D3
                                        } else {
                                            0xA7D5 <= u <= 0xA7D9
                                        }
                                    }
                                } else {
                                    if u < 0xA82C {
                                        0xA7F2 <= u <= 0xA827
                                    } else {
                                        if u < 0xA840 {
                                            u == 0xA82C
                                        } else {
                                            0xA840 <= u <= 0xA873
                                        }
                                    }
                                }
                            } else {
                                if u < 0xA8FB {
                                    if u < 0xA8D0 {
                                        0xA880 <= u <= 0xA8C5
                                    } else {
                                        if u < 0xA8E0 {
                                            0xA8D0 <= u <= 0xA8D9
                                        } else {
                                            0xA8E0 <= u <= 0xA8F7
                                        }
                                    }
                                } else {
                                    if u < 0xA8FD {
                                        u == 0xA8FB
                                    } else {
                                        if u < 0xA930 {
                                            0xA8FD <= u <= 0xA92D
                                        } else {
                                            0xA930 <= u <= 0xA953
                                        }
                                    }
                                }
                            }
                        } else {
                            if u < 0xAA50 {
                                if u < 0xA9E0 {
                                    if u < 0xA980 {
                                        0xA960 <= u <= 0xA97C
                                    } else {
                                        if u < 0xA9CF {
                                            0xA980 <= u <= 0xA9C0
                                        } else {
                                            0xA9CF <= u <= 0xA9D9
                                        }
                                    }
                                } else {
                                    if u < 0xAA00 {
                                        0xA9E0 <= u <= 0xA9FE
                                    } else {
                                        if u < 0xAA40 {
                                            0xAA00 <= u <= 0xAA36
                                        } else {
                                            0xAA40 <= u <= 0xAA4D
                                        }
                                    }
                                }
                            } else {
                                if u < 0xAADB {
                                    if u < 0xAA60 {
                                        0xAA50 <= u <= 0xAA59
                                    } else {
                                        if u < 0xAA7A {
                                            0xAA60 <= u <= 0xAA76
                                        } else {
                                            0xAA7A <= u <= 0xAAC2
                                        }
                                    }
                                } else {
                                    if u < 0xAAF2 {
                                        if u < 0xAAE0 {
                                            0xAADB <= u <= 0xAADD
                                        } else {
                                            0xAAE0 <= u <= 0xAAEF
                                        }
                                    } else {
                                        if u < 0xAB01 {
                                            0xAAF2 <= u <= 0xAAF6
                                        } else {
                                            0xAB01 <= u <= 0xAB06
                                        }
                                    }
                                }
                            }
                        }
                    }
                }
            }
        }
    } else {
        if u < 0x119AA {
            if u < 0x10A05 {
                if u < 0x10080 {
                    if u < 0xFD50 {
                        if u < 0xF900 {
                            if u < 0xAB70 {
                                if u < 0xAB28 {
                                    if u < 0xAB11 {
                                        0xAB09 <= u <= 0xAB0E
                                    } else {
                                        if u < 0xAB20 {
                                            0xAB11 <= u <= 0xAB16
                                        } else {
                                            0xAB20 <= u <= 0xAB26
                                        }
                                    }
                                } else {
                                    if u < 0xAB30 {
                                        0xAB28 <= u <= 0xAB2E
                                    } else {
                                        if u < 0xAB5C {
                                            0xAB30 <= u <= 0xAB5A
                                        } else {
                                            0xAB5C <= u <= 0xAB69
                                        }
                                    }
                                }
                            } else {
                                if u < 0xAC00 {
                                    if u < 0xABEC {
                                        0xAB70 <= u <= 0xABEA
                                    } else {
                                        if u < 0xABF0 {
                                            0xABEC <= u <= 0xABED
                                        } else {
                                            0xABF0 <= u <= 0xABF9
                                        }
                                    }
                                } else {
                                    if u < 0xD7B0 {
                                        0xAC00 <= u <= 0xD7A3
                                    } else {
                                        if u < 0xD7CB {
                                            0xD7B0 <= u <= 0xD7C6
                                        } else {
                                            0xD7CB <= u <= 0xD7FB
                                        }
                                    }
                                }
                            }
                        } else {
                            if u < 0xFB38 {
                                if u < 0xFB13 {
                                    if u < 0xFA70 {
                                        0xF900 <= u <= 0xFA6D
                                    } else {
                                        if u < 0xFB00 {
                                            0xFA70 <= u <= 0xFAD9
                                        } else {
                                            0xFB00 <= u <= 0xFB06
                                        }
                                    }
                                } else {
                                    if u < 0xFB1D {
                                        0xFB13 <= u <= 0xFB17
                                    } else {
                                        if u < 0xFB2A {
                                            0xFB1D <= u <= 0xFB28
                                        } else {
                                            0xFB2A <= u <= 0xFB36
                                        }
                                    }
                                }
                            } else {
                                if u < 0xFB43 {
                                    if u < 0xFB3E {
                                        0xFB38 <= u <= 0xFB3C
                                    } else {
                                        if u < 0xFB40 {
                                            u == 0xFB3E
                                        } else {
                                            0xFB40 <= u <= 0xFB41
                                        }
                                    }
                                } else {
                                    if u < 0xFB46 {
                                        0xFB43 <= u <= 0xFB44
                                    } else {
                                        if u < 0xFBD3 {
                                            0xFB46 <= u <= 0xFBB1
                                        } else {
                                            0xFBD3 <= u <= 0xFD3D
                                        }
                                    }
                                }
                            }
                        }
                    } else {
                        if u < 0xFF41 {
                            if u < 0xFE4D {
                                if u < 0xFE00 {
                                    if u < 0xFD92 {
                                        0xFD50 <= u <= 0xFD8F
                                    } else {
                                        if u < 0xFDF0 {
                                            0xFD92 <= u <= 0xFDC7
                                        } else {
                                            0xFDF0 <= u <= 0xFDFB
                                        }
                                    }
                                } else {
                                    if u < 0xFE20 {
                                        0xFE00 <= u <= 0xFE0F
                                    } else {
                                        if u < 0xFE33 {
                                            0xFE20 <= u <= 0xFE2F
                                        } else {
                                            0xFE33 <= u <= 0xFE34
                                        }
                                    }
                                }
                            } else {
                                if u < 0xFF10 {
                                    if u < 0xFE70 {
                                        0xFE4D <= u <= 0xFE4F
                                    } else {
                                        if u < 0xFE76 {
                                            0xFE70 <= u <= 0xFE74
                                        } else {
                                            0xFE76 <= u <= 0xFEFC
                                        }
                                    }
                                } else {
                                    if u < 0xFF21 {
                                        0xFF10 <= u <= 0xFF19
                                    } else {
                                        if u < 0xFF3F {
                                            0xFF21 <= u <= 0xFF3A
                                        } else {
                                            u == 0xFF3F
                                        }
                                    }
                                }
                            }
                        } else {
                            if u < 0x10000 {
                                if u < 0xFFCA {
                                    if u < 0xFF66 {
                                        0xFF41 <= u <= 0xFF5A
                                    } else {
                                        if u < 0xFFC2 {
                                            0xFF66 <= u <= 0xFFBE
                                        } else {
                                            0xFFC2 <= u <= 0xFFC7
                                        }
                                    }
                                } else {
                                    if u < 0xFFD2 {
                                        0xFFCA <= u <= 0xFFCF
                                    } else {
                                        if u < 0xFFDA {
                                            0xFFD2 <= u <= 0xFFD7
                                        } else {
                                            0xFFDA <= u <= 0xFFDC
                                        }
                                    }
                                }
                            } else {
                                if u < 0x1003C {
                                    if u < 0x1000D {
                                        0x10000 <= u <= 0x1000B
                                    } else {
                                        if u < 0x10028 {
                                            0x1000D <= u <= 0x10026
                                        } else {
                                            0x10028 <= u <= 0x1003A
                                        }
                                    }
                                } else {
                                    if u < 0x1003F {
                                        0x1003C <= u <= 0x1003D
                                    } else {
                                        if u < 0x10050 {
                                            0x1003F <= u <= 0x1004D
                                        } else {
                                            0x10050 <= u <= 0x1005D
                                        }
                                    }
                                }
                            }
                        }
                    }
                } else {
                    if u < 0x105A3 {
                        if u < 0x103D1 {
                            if u < 0x10300 {
                                if u < 0x10280 {
                                    if u < 0x10140 {
                                        0x10080 <= u <= 0x100FA
                                    } else {
                                        if u < 0x101FD {
                                            0x10140 <= u <= 0x10174
                                        } else {
                                            u == 0x101FD
                                        }
                                    }
                                } else {
                                    if u < 0x102A0 {
                                        0x10280 <= u <= 0x1029C
                                    } else {
                                        if u < 0x102E0 {
                                            0x102A0 <= u <= 0x102D0
                                        } else {
                                            u == 0x102E0
                                        }
                                    }
                                }
                            } else {
                                if u < 0x10380 {
                                    if u < 0x1032D {
                                        0x10300 <= u <= 0x1031F
                                    } else {
                                        if u < 0x10350 {
                                            0x1032D <= u <= 0x1034A
                                        } else {
                                            0x10350 <= u <= 0x1037A
                                        }
                                    }
                                } else {
                                    if u < 0x103A0 {
                                        0x10380 <= u <= 0x1039D
                                    } else {
                                        if u < 0x103C8 {
                                            0x103A0 <= u <= 0x103C3
                                        } else {
                                            0x103C8 <= u <= 0x103CF
                                        }
                                    }
                                }
                            }
                        } else {
                            if u < 0x10530 {
                                if u < 0x104B0 {
                                    if u < 0x10400 {
                                        0x103D1 <= u <= 0x103D5
                                    } else {
                                        if u < 0x104A0 {
                                            0x10400 <= u <= 0x1049D
                                        } else {
                                            0x104A0 <= u <= 0x104A9
                                        }
                                    }
                                } else {
                                    if u < 0x104D8 {
                                        0x104B0 <= u <= 0x104D3
                                    } else {
                                        if u < 0x10500 {
                                            0x104D8 <= u <= 0x104FB
                                        } else {
                                            0x10500 <= u <= 0x10527
                                        }
                                    }
                                }
                            } else {
                                if u < 0x1058C {
                                    if u < 0x10570 {
                                        0x10530 <= u <= 0x10563
                                    } else {
                                        if u < 0x1057C {
                                            0x10570 <= u <= 0x1057A
                                        } else {
                                            0x1057C <= u <= 0x1058A
                                        }
                                    }
                                } else {
                                    if u < 0x10594 {
                                        0x1058C <= u <= 0x10592
                                    } else {
                                        if u < 0x10597 {
                                            0x10594 <= u <= 0x10595
                                        } else {
                                            0x10597 <= u <= 0x105A1
                                        }
                                    }
                                }
                            }
                        }
                    } else {
                        if u < 0x10837 {
                            if u < 0x10780 {
                                if u < 0x10600 {
                                    if u < 0x105B3 {
                                        0x105A3 <= u <= 0x105B1
                                    } else {
                                        if u < 0x105BB {
                                            0x105B3 <= u <= 0x105B9
                                        } else {
                                            0x105BB <= u <= 0x105BC
                                        }
                                    }
                                } else {
                                    if u < 0x10740 {
                                        0x10600 <= u <= 0x10736
                                    } else {
                                        if u < 0x10760 {
                                            0x10740 <= u <= 0x10755
                                        } else {
                                            0x10760 <= u <= 0x10767
                                        }
                                    }
                                }
                            } else {
                                if u < 0x10800 {
                                    if u < 0x10787 {
                                        0x10780 <= u <= 0x10785
                                    } else {
                                        if u < 0x107B2 {
                                            0x10787 <= u <= 0x107B0
                                        } else {
                                            0x107B2 <= u <= 0x107BA
                                        }
                                    }
                                } else {
                                    if u < 0x10808 {
                                        0x10800 <= u <= 0x10805
                                    } else {
                                        if u < 0x1080A {
                                            u == 0x10808
                                        } else {
                                            0x1080A <= u <= 0x10835
                                        }
                                    }
                                }
                            }
                        } else {
                            if u < 0x108F4 {
                                if u < 0x10860 {
                                    if u < 0x1083C {
                                        0x10837 <= u <= 0x10838
                                    } else {
                                        if u < 0x1083F {
                                            u == 0x1083C
                                        } else {
                                            0x1083F <= u <= 0x10855
                                        }
                                    }
                                } else {
                                    if u < 0x10880 {
                                        0x10860 <= u <= 0x10876
                                    } else {
                                        if u < 0x108E0 {
                                            0x10880 <= u <= 0x1089E
                                        } else {
                                            0x108E0 <= u <= 0x108F2
                                        }
                                    }
                                }
                            } else {
                                if u < 0x10980 {
                                    if u < 0x10900 {
                                        0x108F4 <= u <= 0x108F5
                                    } else {
                                        if u < 0x10920 {
                                            0x10900 <= u <= 0x10915
                                        } else {
                                            0x10920 <= u <= 0x10939
                                        }
                                    }
                                } else {
                                    if u < 0x109BE {
                                        0x10980 <= u <= 0x109B7
                                    } else {
                                        if u < 0x10A00 {
                                            0x109BE <= u <= 0x109BF
                                        } else {
                                            0x10A00 <= u <= 0x10A03
                                        }
                                    }
                                }
                            }
                        }
                    }
                }
            } else {
                if u < 0x1128A {
                    if u < 0x10F30 {
                        if u < 0x10B60 {
                            if u < 0x10A60 {
                                if u < 0x10A19 {
                                    if u < 0x10A0C {
                                        0x10A05 <= u <= 0x10A06
                                    } else {
                                        if u < 0x10A15 {
                                            0x10A0C <= u <= 0x10A13
                                        } else {
                                            0x10A15 <= u <= 0x10A17
                                        }
                                    }
                                } else {
                                    if u < 0x10A38 {
                                        0x10A19 <= u <= 0x10A35
                                    } else {
                                        if u < 0x10A3F {
                                            0x10A38 <= u <= 0x10A3A
                                        } else {
                                            u == 0x10A3F
                                        }
                                    }
                                }
                            } else {
                                if u < 0x10AC9 {
                                    if u < 0x10A80 {
                                        0x10A60 <= u <= 0x10A7C
                                    } else {
                                        if u < 0x10AC0 {
                                            0x10A80 <= u <= 0x10A9C
                                        } else {
                                            0x10AC0 <= u <= 0x10AC7
                                        }
                                    }
                                } else {
                                    if u < 0x10B00 {
                                        0x10AC9 <= u <= 0x10AE6
                                    } else {
                                        if u < 0x10B40 {
                                            0x10B00 <= u <= 0x10B35
                                        } else {
                                            0x10B40 <= u <= 0x10B55
                                        }
                                    }
                                }
                            }
                        } else {
                            if u < 0x10D30 {
                                if u < 0x10C80 {
                                    if u < 0x10B80 {
                                        0x10B60 <= u <= 0x10B72
                                    } else {
                                        if u < 0x10C00 {
                                            0x10B80 <= u <= 0x10B91
                                        } else {
                                            0x10C00 <= u <= 0x10C48
                                        }
                                    }
                                } else {
                                    if u < 0x10CC0 {
                                        0x10C80 <= u <= 0x10CB2
                                    } else {
                                        if u < 0x10D00 {
                                            0x10CC0 <= u <= 0x10CF2
                                        } else {
                                            0x10D00 <= u <= 0x10D27
                                        }
                                    }
                                }
                            } else {
                                if u < 0x10EB0 {
                                    if u < 0x10E80 {
                                        0x10D30 <= u <= 0x10D39
                                    } else {
                                        if u < 0x10EAB {
                                            0x10E80 <= u <= 0x10EA9
                                        } else {
                                            0x10EAB <= u <= 0x10EAC
                                        }
                                    }
                                } else {
                                    if u < 0x10EFD {
                                        0x10EB0 <= u <= 0x10EB1
                                    } else {
                                        if u < 0x10F27 {
                                            0x10EFD <= u <= 0x10F1C
                                        } else {
                                            u == 0x10F27
                                        }
                                    }
                                }
                            }
                        }
                    } else {
                        if u < 0x11144 {
                            if u < 0x1107F {
                                if u < 0x10FE0 {
                                    if u < 0x10F70 {
                                        0x10F30 <= u <= 0x10F50
                                    } else {
                                        if u < 0x10FB0 {
                                            0x10F70 <= u <= 0x10F85
                                        } else {
                                            0x10FB0 <= u <= 0x10FC4
                                        }
                                    }
                                } else {
                                    if u < 0x11000 {
                                        0x10FE0 <= u <= 0x10FF6
                                    } else {
                                        if u < 0x11066 {
                                            0x11000 <= u <= 0x11046
                                        } else {
                                            0x11066 <= u <= 0x11075
                                        }
                                    }
                                }
                            } else {
                                if u < 0x110F0 {
                                    if u < 0x110C2 {
                                        0x1107F <= u <= 0x110BA
                                    } else {
                                        if u < 0x110D0 {
                                            u == 0x110C2
                                        } else {
                                            0x110D0 <= u <= 0x110E8
                                        }
                                    }
                                } else {
                                    if u < 0x11100 {
                                        0x110F0 <= u <= 0x110F9
                                    } else {
                                        if u < 0x11136 {
                                            0x11100 <= u <= 0x11134
                                        } else {
                                            0x11136 <= u <= 0x1113F
                                        }
                                    }
                                }
                            }
                        } else {
                            if u < 0x111DC {
                                if u < 0x11180 {
                                    if u < 0x11150 {
                                        0x11144 <= u <= 0x11147
                                    } else {
                                        if u < 0x11176 {
                                            0x11150 <= u <= 0x11173
                                        } else {
                                            u == 0x11176
                                        }
                                    }
                                } else {
                                    if u < 0x111C9 {
                                        0x11180 <= u <= 0x111C4
                                    } else {
                                        if u < 0x111CE {
                                            0x111C9 <= u <= 0x111CC
                                        } else {
                                            0x111CE <= u <= 0x111DA
                                        }
                                    }
                                }
                            } else {
                                if u < 0x1123E {
                                    if u < 0x11200 {
                                        u == 0x111DC
                                    } else {
                                        if u < 0x11213 {
                                            0x11200 <= u <= 0x11211
                                        } else {
                                            0x11213 <= u <= 0x11237
                                        }
                                    }
                                } else {
                                    if u < 0x11280 {
                                        0x1123E <= u <= 0x11241
                                    } else {
                                        if u < 0x11288 {
                                            0x11280 <= u <= 0x11286
                                        } else {
                                            u == 0x11288
                                        }
                                    }
                                }
                            }
                        }
                    }
                } else {
                    if u < 0x114C7 {
                        if u < 0x1133B {
                            if u < 0x11305 {
                                if u < 0x112B0 {
                                    if u < 0x1128F {
                                        0x1128A <= u <= 0x1128D
                                    } else {
                                        if u < 0x1129F {
                                            0x1128F <= u <= 0x1129D
                                        } else {
                                            0x1129F <= u <= 0x112A8
                                        }
                                    }
                                } else {
                                    if u < 0x112F0 {
                                        0x112B0 <= u <= 0x112EA
                                    } else {
                                        if u < 0x11300 {
                                            0x112F0 <= u <= 0x112F9
                                        } else {
                                            0x11300 <= u <= 0x11303
                                        }
                                    }
                                }
                            } else {
                                if u < 0x1132A {
                                    if u < 0x1130F {
                                        0x11305 <= u <= 0x1130C
                                    } else {
                                        if u < 0x11313 {
                                            0x1130F <= u <= 0x11310
                                        } else {
                                            0x11313 <= u <= 0x11328
                                        }
                                    }
                                } else {
                                    if u < 0x11332 {
                                        0x1132A <= u <= 0x11330
                                    } else {
                                        if u < 0x11335 {
                                            0x11332 <= u <= 0x11333
                                        } else {
                                            0x11335 <= u <= 0x11339
                                        }
                                    }
                                }
                            }
                        } else {
                            if u < 0x11366 {
                                if u < 0x11350 {
                                    if u < 0x11347 {
                                        0x1133B <= u <= 0x11344
                                    } else {
                                        if u < 0x1134B {
                                            0x11347 <= u <= 0x11348
                                        } else {
                                            0x1134B <= u <= 0x1134D
                                        }
                                    }
                                } else {
                                    if u < 0x11357 {
                                        u == 0x11350
                                    } else {
                                        if u < 0x1135D {
                                            u == 0x11357
                                        } else {
                                            0x1135D <= u <= 0x11363
                                        }
                                    }
                                }
                            } else {
                                if u < 0x11450 {
                                    if u < 0x11370 {
                                        0x11366 <= u <= 0x1136C
                                    } else {
                                        if u < 0x11400 {
                                            0x11370 <= u <= 0x11374
                                        } else {
                                            0x11400 <= u <= 0x1144A
                                        }
                                    }
                                } else {
                                    if u < 0x1145E {
                                        0x11450 <= u <= 0x11459
                                    } else {
                                        if u < 0x11480 {
                                            0x1145E <= u <= 0x11461
                                        } else {
                                            0x11480 <= u <= 0x114C5
                                        }
                                    }
                                }
                            }
                        }
                    } else {
                        if u < 0x11730 {
                            if u < 0x11644 {
                                if u < 0x115B8 {
                                    if u < 0x114D0 {
                                        u == 0x114C7
                                    } else {
                                        if u < 0x11580 {
                                            0x114D0 <= u <= 0x114D9
                                        } else {
                                            0x11580 <= u <= 0x115B5
                                        }
                                    }
                                } else {
                                    if u < 0x115D8 {
                                        0x115B8 <= u <= 0x115C0
                                    } else {
                                        if u < 0x11600 {
                                            0x115D8 <= u <= 0x115DD
                                        } else {
                                            0x11600 <= u <= 0x11640
                                        }
                                    }
                                }
                            } else {
                                if u < 0x116C0 {
                                    if u < 0x11650 {
                                        u == 0x11644
                                    } else {
                                        if u < 0x11680 {
                                            0x11650 <= u <= 0x11659
                                        } else {
                                            0x11680 <= u <= 0x116B8
                                        }
                                    }
                                } else {
                                    if u < 0x11700 {
                                        0x116C0 <= u <= 0x116C9
                                    } else {
                                        if u < 0x1171D {
                                            0x11700 <= u <= 0x1171A
                                        } else {
                                            0x1171D <= u <= 0x1172B
                                        }
                                    }
                                }
                            }
                        } else {
                            if u < 0x1190C {
                                if u < 0x118A0 {
                                    if u < 0x11740 {
                                        0x11730 <= u <= 0x11739
                                    } else {
                                        if u < 0x11800 {
                                            0x11740 <= u <= 0x11746
                                        } else {
                                            0x11800 <= u <= 0x1183A
                                        }
                                    }
                                } else {
                                    if u < 0x118FF {
                                        0x118A0 <= u <= 0x118E9
                                    } else {
                                        if u < 0x11909 {
                                            0x118FF <= u <= 0x11906
                                        } else {
                                            u == 0x11909
                                        }
                                    }
                                }
                            } else {
                                if u < 0x11937 {
                                    if u < 0x11915 {
                                        0x1190C <= u <= 0x11913
                                    } else {
                                        if u < 0x11918 {
                                            0x11915 <= u <= 0x11916
                                        } else {
                                            0x11918 <= u <= 0x11935
                                        }
                                    }
                                } else {
                                    if u < 0x11950 {
                                        if u < 0x1193B {
                                            0x11937 <= u <= 0x11938
                                        } else {
                                            0x1193B <= u <= 0x11943
                                        }
                                    } else {
                                        if u < 0x119A0 {
                                            0x11950 <= u <= 0x11959
                                        } else {
                                            0x119A0 <= u <= 0x119A7
                                        }
                                    }
                                }
                            }
                        }
                    }
                }
            }
        } else {
            if u < 0x1D50D {
                if u < 0x16B00 {
                    if u < 0x11D6A {
                        if u < 0x11C72 {
                            if u < 0x11A9D {
                                if u < 0x11A00 {
                                    if u < 0x119DA {
                                        0x119AA <= u <= 0x119D7
                                    } else {
                                        if u < 0x119E3 {
                                            0x119DA <= u <= 0x119E1
                                        } else {
                                            0x119E3 <= u <= 0x119E4
                                        }
                                    }
                                } else {
                                    if u < 0x11A47 {
                                        0x11A00 <= u <= 0x11A3E
                                    } else {
                                        if u < 0x11A50 {
                                            u == 0x11A47
                                        } else {
                                            0x11A50 <= u <= 0x11A99
                                        }
                                    }
                                }
                            } else {
                                if u < 0x11C0A {
                                    if u < 0x11AB0 {
                                        u == 0x11A9D
                                    } else {
                                        if u < 0x11C00 {
                                            0x11AB0 <= u <= 0x11AF8
                                        } else {
                                            0x11C00 <= u <= 0x11C08
                                        }
                                    }
                                } else {
                                    if u < 0x11C38 {
                                        0x11C0A <= u <= 0x11C36
                                    } else {
                                        if u < 0x11C50 {
                                            0x11C38 <= u <= 0x11C40
                                        } else {
                                            0x11C50 <= u <= 0x11C59
                                        }
                                    }
                                }
                            }
                        } else {
                            if u < 0x11D3A {
                                if u < 0x11D00 {
                                    if u < 0x11C92 {
                                        0x11C72 <= u <= 0x11C8F
                                    } else {
                                        if u < 0x11CA9 {
                                            0x11C92 <= u <= 0x11CA7
                                        } else {
                                            0x11CA9 <= u <= 0x11CB6
                                        }
                                    }
                                } else {
                                    if u < 0x11D08 {
                                        0x11D00 <= u <= 0x11D06
                                    } else {
                                        if u < 0x11D0B {
                                            0x11D08 <= u <= 0x11D09
                                        } else {
                                            0x11D0B <= u <= 0x11D36
                                        }
                                    }
                                }
                            } else {
                                if u < 0x11D50 {
                                    if u < 0x11D3C {
                                        u == 0x11D3A
                                    } else {
                                        if u < 0x11D3F {
                                            0x11D3C <= u <= 0x11D3D
                                        } else {
                                            0x11D3F <= u <= 0x11D47
                                        }
                                    }
                                } else {
                                    if u < 0x11D60 {
                                        0x11D50 <= u <= 0x11D59
                                    } else {
                                        if u < 0x11D67 {
                                            0x11D60 <= u <= 0x11D65
                                        } else {
                                            0x11D67 <= u <= 0x11D68
                                        }
                                    }
                                }
                            }
                        }
                    } else {
                        if u < 0x12480 {
                            if u < 0x11F12 {
                                if u < 0x11DA0 {
                                    if u < 0x11D90 {
                                        0x11D6A <= u <= 0x11D8E
                                    } else {
                                        if u < 0x11D93 {
                                            0x11D90 <= u <= 0x11D91
                                        } else {
                                            0x11D93 <= u <= 0x11D98
                                        }
                                    }
                                } else {
                                    if u < 0x11EE0 {
                                        0x11DA0 <= u <= 0x11DA9
                                    } else {
                                        if u < 0x11F00 {
                                            0x11EE0 <= u <= 0x11EF6
                                        } else {
                                            0x11F00 <= u <= 0x11F10
                                        }
                                    }
                                }
                            } else {
                                if u < 0x11FB0 {
                                    if u < 0x11F3E {
                                        0x11F12 <= u <= 0x11F3A
                                    } else {
                                        if u < 0x11F50 {
                                            0x11F3E <= u <= 0x11F42
                                        } else {
                                            0x11F50 <= u <= 0x11F59
                                        }
                                    }
                                } else {
                                    if u < 0x12000 {
                                        u == 0x11FB0
                                    } else {
                                        if u < 0x12400 {
                                            0x12000 <= u <= 0x12399
                                        } else {
                                            0x12400 <= u <= 0x1246E
                                        }
                                    }
                                }
                            }
                        } else {
                            if u < 0x16A40 {
                                if u < 0x13440 {
                                    if u < 0x12F90 {
                                        0x12480 <= u <= 0x12543
                                    } else {
                                        if u < 0x13000 {
                                            0x12F90 <= u <= 0x12FF0
                                        } else {
                                            0x13000 <= u <= 0x1342F
                                        }
                                    }
                                } else {
                                    if u < 0x14400 {
                                        0x13440 <= u <= 0x13455
                                    } else {
                                        if u < 0x16800 {
                                            0x14400 <= u <= 0x14646
                                        } else {
                                            0x16800 <= u <= 0x16A38
                                        }
                                    }
                                }
                            } else {
                                if u < 0x16AC0 {
                                    if u < 0x16A60 {
                                        0x16A40 <= u <= 0x16A5E
                                    } else {
                                        if u < 0x16A70 {
                                            0x16A60 <= u <= 0x16A69
                                        } else {
                                            0x16A70 <= u <= 0x16ABE
                                        }
                                    }
                                } else {
                                    if u < 0x16AD0 {
                                        0x16AC0 <= u <= 0x16AC9
                                    } else {
                                        if u < 0x16AF0 {
                                            0x16AD0 <= u <= 0x16AED
                                        } else {
                                            0x16AF0 <= u <= 0x16AF4
                                        }
                                    }
                                }
                            }
                        }
                    }
                } else {
                    if u < 0x1BC00 {
                        if u < 0x17000 {
                            if u < 0x16F00 {
                                if u < 0x16B63 {
                                    if u < 0x16B40 {
                                        0x16B00 <= u <= 0x16B36
                                    } else {
                                        if u < 0x16B50 {
                                            0x16B40 <= u <= 0x16B43
                                        } else {
                                            0x16B50 <= u <= 0x16B59
                                        }
                                    }
                                } else {
                                    if u < 0x16B7D {
                                        0x16B63 <= u <= 0x16B77
                                    } else {
                                        if u < 0x16E40 {
                                            0x16B7D <= u <= 0x16B8F
                                        } else {
                                            0x16E40 <= u <= 0x16E7F
                                        }
                                    }
                                }
                            } else {
                                if u < 0x16FE0 {
                                    if u < 0x16F4F {
                                        0x16F00 <= u <= 0x16F4A
                                    } else {
                                        if u < 0x16F8F {
                                            0x16F4F <= u <= 0x16F87
                                        } else {
                                            0x16F8F <= u <= 0x16F9F
                                        }
                                    }
                                } else {
                                    if u < 0x16FE3 {
                                        0x16FE0 <= u <= 0x16FE1
                                    } else {
                                        if u < 0x16FF0 {
                                            0x16FE3 <= u <= 0x16FE4
                                        } else {
                                            0x16FF0 <= u <= 0x16FF1
                                        }
                                    }
                                }
                            }
                        } else {
                            if u < 0x1B000 {
                                if u < 0x1AFF0 {
                                    if u < 0x18800 {
                                        0x17000 <= u <= 0x187F7
                                    } else {
                                        if u < 0x18D00 {
                                            0x18800 <= u <= 0x18CD5
                                        } else {
                                            0x18D00 <= u <= 0x18D08
                                        }
                                    }
                                } else {
                                    if u < 0x1AFF5 {
                                        0x1AFF0 <= u <= 0x1AFF3
                                    } else {
                                        if u < 0x1AFFD {
                                            0x1AFF5 <= u <= 0x1AFFB
                                        } else {
                                            0x1AFFD <= u <= 0x1AFFE
                                        }
                                    }
                                }
                            } else {
                                if u < 0x1B155 {
                                    if u < 0x1B132 {
                                        0x1B000 <= u <= 0x1B122
                                    } else {
                                        if u < 0x1B150 {
                                            u == 0x1B132
                                        } else {
                                            0x1B150 <= u <= 0x1B152
                                        }
                                    }
                                } else {
                                    if u < 0x1B164 {
                                        u == 0x1B155
                                    } else {
                                        if u < 0x1B170 {
                                            0x1B164 <= u <= 0x1B167
                                        } else {
                                            0x1B170 <= u <= 0x1B2FB
                                        }
                                    }
                                }
                            }
                        }
                    } else {
                        if u < 0x1D242 {
                            if u < 0x1CF30 {
                                if u < 0x1BC90 {
                                    if u < 0x1BC70 {
                                        0x1BC00 <= u <= 0x1BC6A
                                    } else {
                                        if u < 0x1BC80 {
                                            0x1BC70 <= u <= 0x1BC7C
                                        } else {
                                            0x1BC80 <= u <= 0x1BC88
                                        }
                                    }
                                } else {
                                    if u < 0x1BC9D {
                                        0x1BC90 <= u <= 0x1BC99
                                    } else {
                                        if u < 0x1CF00 {
                                            0x1BC9D <= u <= 0x1BC9E
                                        } else {
                                            0x1CF00 <= u <= 0x1CF2D
                                        }
                                    }
                                }
                            } else {
                                if u < 0x1D17B {
                                    if u < 0x1D165 {
                                        0x1CF30 <= u <= 0x1CF46
                                    } else {
                                        if u < 0x1D16D {
                                            0x1D165 <= u <= 0x1D169
                                        } else {
                                            0x1D16D <= u <= 0x1D172
                                        }
                                    }
                                } else {
                                    if u < 0x1D185 {
                                        0x1D17B <= u <= 0x1D182
                                    } else {
                                        if u < 0x1D1AA {
                                            0x1D185 <= u <= 0x1D18B
                                        } else {
                                            0x1D1AA <= u <= 0x1D1AD
                                        }
                                    }
                                }
                            }
                        } else {
                            if u < 0x1D4A9 {
                                if u < 0x1D49E {
                                    if u < 0x1D400 {
                                        0x1D242 <= u <= 0x1D244
                                    } else {
                                        if u < 0x1D456 {
                                            0x1D400 <= u <= 0x1D454
                                        } else {
                                            0x1D456 <= u <= 0x1D49C
                                        }
                                    }
                                } else {
                                    if u < 0x1D4A2 {
                                        0x1D49E <= u <= 0x1D49F
                                    } else {
                                        if u < 0x1D4A5 {
                                            u == 0x1D4A2
                                        } else {
                                            0x1D4A5 <= u <= 0x1D4A6
                                        }
                                    }
                                }
                            } else {
                                if u < 0x1D4BD {
                                    if u < 0x1D4AE {
                                        0x1D4A9 <= u <= 0x1D4AC
                                    } else {
                                        if u < 0x1D4BB {
                                            0x1D4AE <= u <= 0x1D4B9
                                        } else {
                                            u == 0x1D4BB
                                        }
                                    }
                                } else {
                                    if u < 0x1D4C5 {
                                        0x1D4BD <= u <= 0x1D4C3
                                    } else {
                                        if u < 0x1D507 {
                                            0x1D4C5 <= u <= 0x1D505
                                        } else {
                                            0x1D507 <= u <= 0x1D50A
                                        }
                                    }
                                }
                            }
                        }
                    }
                }
            } else {
                if u < 0x1E900 {
                    if u < 0x1DA9B {
                        if u < 0x1D716 {
                            if u < 0x1D54A {
                                if u < 0x1D53B {
                                    if u < 0x1D516 {
                                        0x1D50D <= u <= 0x1D514
                                    } else {
                                        if u < 0x1D51E {
                                            0x1D516 <= u <= 0x1D51C
                                        } else {
                                            0x1D51E <= u <= 0x1D539
                                        }
                                    }
                                } else {
                                    if u < 0x1D540 {
                                        0x1D53B <= u <= 0x1D53E
                                    } else {
                                        if u < 0x1D546 {
                                            0x1D540 <= u <= 0x1D544
                                        } else {
                                            u == 0x1D546
                                        }
                                    }
                                }
                            } else {
                                if u < 0x1D6C2 {
                                    if u < 0x1D552 {
                                        0x1D54A <= u <= 0x1D550
                                    } else {
                                        if u < 0x1D6A8 {
                                            0x1D552 <= u <= 0x1D6A5
                                        } else {
                                            0x1D6A8 <= u <= 0x1D6C0
                                        }
                                    }
                                } else {
                                    if u < 0x1D6DC {
                                        0x1D6C2 <= u <= 0x1D6DA
                                    } else {
                                        if u < 0x1D6FC {
                                            0x1D6DC <= u <= 0x1D6FA
                                        } else {
                                            0x1D6FC <= u <= 0x1D714
                                        }
                                    }
                                }
                            }
                        } else {
                            if u < 0x1D7C4 {
                                if u < 0x1D770 {
                                    if u < 0x1D736 {
                                        0x1D716 <= u <= 0x1D734
                                    } else {
                                        if u < 0x1D750 {
                                            0x1D736 <= u <= 0x1D74E
                                        } else {
                                            0x1D750 <= u <= 0x1D76E
                                        }
                                    }
                                } else {
                                    if u < 0x1D78A {
                                        0x1D770 <= u <= 0x1D788
                                    } else {
                                        if u < 0x1D7AA {
                                            0x1D78A <= u <= 0x1D7A8
                                        } else {
                                            0x1D7AA <= u <= 0x1D7C2
                                        }
                                    }
                                }
                            } else {
                                if u < 0x1DA3B {
                                    if u < 0x1D7CE {
                                        0x1D7C4 <= u <= 0x1D7CB
                                    } else {
                                        if u < 0x1DA00 {
                                            0x1D7CE <= u <= 0x1D7FF
                                        } else {
                                            0x1DA00 <= u <= 0x1DA36
                                        }
                                    }
                                } else {
                                    if u < 0x1DA75 {
                                        0x1DA3B <= u <= 0x1DA6C
                                    } else {
                                        if u < 0x1DA84 {
                                            u == 0x1DA75
                                        } else {
                                            u == 0x1DA84
                                        }
                                    }
                                }
                            }
                        }
                    } else {
                        if u < 0x1E130 {
                            if u < 0x1E01B {
                                if u < 0x1DF25 {
                                    if u < 0x1DAA1 {
                                        0x1DA9B <= u <= 0x1DA9F
                                    } else {
                                        if u < 0x1DF00 {
                                            0x1DAA1 <= u <= 0x1DAAF
                                        } else {
                                            0x1DF00 <= u <= 0x1DF1E
                                        }
                                    }
                                } else {
                                    if u < 0x1E000 {
                                        0x1DF25 <= u <= 0x1DF2A
                                    } else {
                                        if u < 0x1E008 {
                                            0x1E000 <= u <= 0x1E006
                                        } else {
                                            0x1E008 <= u <= 0x1E018
                                        }
                                    }
                                }
                            } else {
                                if u < 0x1E030 {
                                    if u < 0x1E023 {
                                        0x1E01B <= u <= 0x1E021
                                    } else {
                                        if u < 0x1E026 {
                                            0x1E023 <= u <= 0x1E024
                                        } else {
                                            0x1E026 <= u <= 0x1E02A
                                        }
                                    }
                                } else {
                                    if u < 0x1E08F {
                                        0x1E030 <= u <= 0x1E06D
                                    } else {
                                        if u < 0x1E100 {
                                            u == 0x1E08F
                                        } else {
                                            0x1E100 <= u <= 0x1E12C
                                        }
                                    }
                                }
                            }
                        } else {
                            if u < 0x1E7E0 {
                                if u < 0x1E290 {
                                    if u < 0x1E140 {
                                        0x1E130 <= u <= 0x1E13D
                                    } else {
                                        if u < 0x1E14E {
                                            0x1E140 <= u <= 0x1E149
                                        } else {
                                            u == 0x1E14E
                                        }
                                    }
                                } else {
                                    if u < 0x1E2C0 {
                                        0x1E290 <= u <= 0x1E2AE
                                    } else {
                                        if u < 0x1E4D0 {
                                            0x1E2C0 <= u <= 0x1E2F9
                                        } else {
                                            0x1E4D0 <= u <= 0x1E4F9
                                        }
                                    }
                                }
                            } else {
                                if u < 0x1E7F0 {
                                    if u < 0x1E7E8 {
                                        0x1E7E0 <= u <= 0x1E7E6
                                    } else {
                                        if u < 0x1E7ED {
                                            0x1E7E8 <= u <= 0x1E7EB
                                        } else {
                                            0x1E7ED <= u <= 0x1E7EE
                                        }
                                    }
                                } else {
                                    if u < 0x1E800 {
                                        0x1E7F0 <= u <= 0x1E7FE
                                    } else {
                                        if u < 0x1E8D0 {
                                            0x1E800 <= u <= 0x1E8C4
                                        } else {
                                            0x1E8D0 <= u <= 0x1E8D6
                                        }
                                    }
                                }
                            }
                        }
                    }
                } else {
                    if u < 0x1EE64 {
                        if u < 0x1EE47 {
                            if u < 0x1EE27 {
                                if u < 0x1EE05 {
                                    if u < 0x1E950 {
                                        0x1E900 <= u <= 0x1E94B
                                    } else {
                                        if u < 0x1EE00 {
                                            0x1E950 <= u <= 0x1E959
                                        } else {
                                            0x1EE00 <= u <= 0x1EE03
                                        }
                                    }
                                } else {
                                    if u < 0x1EE21 {
                                        0x1EE05 <= u <= 0x1EE1F
                                    } else {
                                        if u < 0x1EE24 {
                                            0x1EE21 <= u <= 0x1EE22
                                        } else {
                                            u == 0x1EE24
                                        }
                                    }
                                }
                            } else {
                                if u < 0x1EE39 {
                                    if u < 0x1EE29 {
                                        u == 0x1EE27
                                    } else {
                                        if u < 0x1EE34 {
                                            0x1EE29 <= u <= 0x1EE32
                                        } else {
                                            0x1EE34 <= u <= 0x1EE37
                                        }
                                    }
                                } else {
                                    if u < 0x1EE3B {
                                        u == 0x1EE39
                                    } else {
                                        if u < 0x1EE42 {
                                            u == 0x1EE3B
                                        } else {
                                            u == 0x1EE42
                                        }
                                    }
                                }
                            }
                        } else {
                            if u < 0x1EE57 {
                                if u < 0x1EE4D {
                                    if u < 0x1EE49 {
                                        u == 0x1EE47
                                    } else {
                                        if u < 0x1EE4B {
                                            u == 0x1EE49
                                        } else {
                                            u == 0x1EE4B
                                        }
                                    }
                                } else {
                                    if u < 0x1EE51 {
                                        0x1EE4D <= u <= 0x1EE4F
                                    } else {
                                        if u < 0x1EE54 {
                                            0x1EE51 <= u <= 0x1EE52
                                        } else {
                                            u == 0x1EE54
                                        }
                                    }
                                }
                            } else {
                                if u < 0x1EE5D {
                                    if u < 0x1EE59 {
                                        u == 0x1EE57
                                    } else {
                                        if u < 0x1EE5B {
                                            u == 0x1EE59
                                        } else {
                                            u == 0x1EE5B
                                        }
                                    }
                                } else {
                                    if u < 0x1EE5F {
                                        u == 0x1EE5D
                                    } else {
                                        if u < 0x1EE61 {
                                            u == 0x1EE5F
                                        } else {
                                            0x1EE61 <= u <= 0x1EE62
                                        }
                                    }
                                }
                            }
                        }
                    } else {
                        if u < 0x1F150 {
                            if u < 0x1EE80 {
                                if u < 0x1EE74 {
                                    if u < 0x1EE67 {
                                        u == 0x1EE64
                                    } else {
                                        if u < 0x1EE6C {
                                            0x1EE67 <= u <= 0x1EE6A
                                        } else {
                                            0x1EE6C <= u <= 0x1EE72
                                        }
                                    }
                                } else {
                                    if u < 0x1EE79 {
                                        0x1EE74 <= u <= 0x1EE77
                                    } else {
                                        if u < 0x1EE7E {
                                            0x1EE79 <= u <= 0x1EE7C
                                        } else {
                                            u == 0x1EE7E
                                        }
                                    }
                                }
                            } else {
                                if u < 0x1EEA5 {
                                    if u < 0x1EE8B {
                                        0x1EE80 <= u <= 0x1EE89
                                    } else {
                                        if u < 0x1EEA1 {
                                            0x1EE8B <= u <= 0x1EE9B
                                        } else {
                                            0x1EEA1 <= u <= 0x1EEA3
                                        }
                                    }
                                } else {
                                    if u < 0x1EEAB {
                                        0x1EEA5 <= u <= 0x1EEA9
                                    } else {
                                        if u < 0x1F130 {
                                            0x1EEAB <= u <= 0x1EEBB
                                        } else {
                                            0x1F130 <= u <= 0x1F149
                                        }
                                    }
                                }
                            }
                        } else {
                            if u < 0x2B820 {
                                if u < 0x20000 {
                                    if u < 0x1F170 {
                                        0x1F150 <= u <= 0x1F169
                                    } else {
                                        if u < 0x1FBF0 {
                                            0x1F170 <= u <= 0x1F189
                                        } else {
                                            0x1FBF0 <= u <= 0x1FBF9
                                        }
                                    }
                                } else {
                                    if u < 0x2A700 {
                                        0x20000 <= u <= 0x2A6DF
                                    } else {
                                        if u < 0x2B740 {
                                            0x2A700 <= u <= 0x2B739
                                        } else {
                                            0x2B740 <= u <= 0x2B81D
                                        }
                                    }
                                }
                            } else {
                                if u < 0x2F800 {
                                    if u < 0x2CEB0 {
                                        0x2B820 <= u <= 0x2CEA1
                                    } else {
                                        if u < 0x2EBF0 {
                                            0x2CEB0 <= u <= 0x2EBE0
                                        } else {
                                            0x2EBF0 <= u <= 0x2EE5D
                                        }
                                    }
                                } else {
                                    if u < 0x31350 {
                                        if u < 0x30000 {
                                            0x2F800 <= u <= 0x2FA1D
                                        } else {
                                            0x30000 <= u <= 0x3134A
                                        }
                                    } else {
                                        if u < 0xE0100 {
                                            0x31350 <= u <= 0x323AF
                                        } else {
                                            0xE0100 <= u <= 0xE01EF
                                        }
                                    }
                                }
                            }
                        }
                    }
                }
            }
        }
    }
}

/// Whether `c` is a Unicode decimal digit.
pub fn decimal_digit(c: char) -> (r: bool)
    ensures
        r == is_decimal_digit(c),
{
    let u = c as u32;
    if u < 0xA9D0 {
        if u < 0xF20 {
            if u < 0xB66 {
                if u < 0x966 {
                    if u < 0x6F0 {
                        if u < 0x660 {
                            0x30 <= u && u <= 0x39
                        } else {
                            0x660 <= u && u <= 0x669
                        }
                    } else {
                        if u < 0x7C0 {
                            0x6F0 <= u && u <= 0x6F9
                        } else {
                            0x7C0 <= u && u <= 0x7C9
                        }
                    }
                } else {
                    if u < 0xA66 {
                        if u < 0x9E6 {
                            0x966 <= u && u <= 0x96F
                        } else {
                            0x9E6 <= u && u <= 0x9EF
                        }
                    } else {
                        if u < 0xAE6 {
                            0xA66 <= u && u <= 0xA6F
                        } else {
                            0xAE6 <= u && u <= 0xAEF
                        }
                    }
                }
            } else {
                if u < 0xD66 {
                    if u < 0xC66 {
                        if u < 0xBE6 {
                            0xB66 <= u && u <= 0xB6F
                        } else {
                            0xBE6 <= u && u <= 0xBEF
                        }
                    } else {
                        if u < 0xCE6 {
                            0xC66 <= u && u <= 0xC6F
                        } else {
                            0xCE6 <= u && u <= 0xCEF
                        }
                    }
                } else {
                    if u < 0xE50 {
                        if u < 0xDE6 {
                            0xD66 <= u && u <= 0xD6F
                        } else {
                            0xDE6 <= u && u <= 0xDEF
                        }
                    } else {
                        if u < 0xED0 {
                            0xE50 <= u && u <= 0xE59
                        } else {
                            0xED0 <= u && u <= 0xED9
                        }
                    }
                }
            }
        } else {
            if u < 0x1A90 {
                if u < 0x1810 {
                    if u < 0x1090 {
                        if u < 0x1040 {
                            0xF20 <= u && u <= 0xF29
                        } else {
                            0x1040 <= u && u <= 0x1049
                        }
                    } else {
                        if u < 0x17E0 {
                            0x1090 <= u && u <= 0x1099
                        } else {
                            0x17E0 <= u && u <= 0x17E9
                        }
                    }
                } else {
                    if u < 0x19D0 {
                        if u < 0x1946 {
                            0x1810 <= u && u <= 0x1819
                        } else {
                            0x1946 <= u && u <= 0x194F
                        }
                    } else {
                        if u < 0x1A80 {
                            0x19D0 <= u && u <= 0x19D9
                        } else {
                            0x1A80 <= u && u <= 0x1A89
                        }
                    }
                }
            } else {
                if u < 0x1C50 {
                    if u < 0x1BB0 {
                        if u < 0x1B50 {
                            0x1A90 <= u && u <= 0x1A99
                        } else {
                            0x1B50 <= u && u <= 0x1B59
                        }
                    } else {
                        if u < 0x1C40 {
                            0x1BB0 <= u && u <= 0x1BB9
                        } else {
                            0x1C40 <= u && u <= 0x1C49
                        }
                    }
                } else {
                    if u < 0xA8D0 {
                        if u < 0xA620 {
                            0x1C50 <= u && u <= 0x1C59
                        } else {
                            0xA620 <= u && u <= 0xA629
                        }
                    } else {
                        if u < 0xA900 {
                            0xA8D0 <= u && u <= 0xA8D9
                        } else {
                            0xA900 <= u && u <= 0xA909
                        }
                    }
                }
            }
        }
    } else {
        if u < 0x11730 {
            if u < 0x110F0 {
                if u < 0xFF10 {
                    if u < 0xAA50 {
                        if u < 0xA9F0 {
                            0xA9D0 <= u && u <= 0xA9D9
                        } else {
                            0xA9F0 <= u && u <= 0xA9F9
                        }
                    } else {
                        if u < 0xABF0 {
                            0xAA50 <= u && u <= 0xAA59
                        } else {
                            0xABF0 <= u && u <= 0xABF9
                        }
                    }
                } else {
                    if u < 0x10D30 {
                        if u < 0x104A0 {
                            0xFF10 <= u && u <= 0xFF19
                        } else {
                            0x104A0 <= u && u <= 0x104A9
                        }
                    } else {
                        if u < 0x11066 {
                            0x10D30 <= u && u <= 0x10D39
                        } else {
                            0x11066 <= u && u <= 0x1106F
                        }
                    }
                }
            } else {
                if u < 0x11450 {
                    if u < 0x111D0 {
                        if u < 0x11136 {
                            0x110F0 <= u && u <= 0x110F9
                        } else {
                            0x11136 <= u && u <= 0x1113F
                        }
                    } else {
                        if u < 0x112F0 {
                            0x111D0 <= u && u <= 0x111D9
                        } else {
                            0x112F0 <= u && u <= 0x112F9
                        }
                    }
                } else {
                    if u < 0x11650 {
                        if u < 0x114D0 {
                            0x11450 <= u && u <= 0x11459
                        } else {
                            0x114D0 <= u && u <= 0x114D9
                        }
                    } else {
                        if u < 0x116C0 {
                            0x11650 <= u && u <= 0x11659
                        } else {
                            0x116C0 <= u && u <= 0x116C9
                        }
                    }
                }
            }
        } else {
            if u < 0x16AC0 {
                if u < 0x11D50 {
                    if u < 0x11950 {
                        if u < 0x118E0 {
                            0x11730 <= u && u <= 0x11739
                        } else {
                            0x118E0 <= u && u <= 0x118E9
                        }
                    } else {
                        if u < 0x11C50 {
                            0x11950 <= u && u <= 0x11959
                        } else {
                            0x11C50 <= u && u <= 0x11C59
                        }
                    }
                } else {
                    if u < 0x11F50 {
                        if u < 0x11DA0 {
                            0x11D50 <= u && u <= 0x11D59
                        } else {
                            0x11DA0 <= u && u <= 0x11DA9
                        }
                    } else {
                        if u < 0x16A60 {
                            0x11F50 <= u && u <= 0x11F59
                        } else {
                            0x16A60 <= u && u <= 0x16A69
                        }
                    }
                }
            } else {
                if u < 0x1E2F0 {
                    if u < 0x1D7CE {
                        if u < 0x16B50 {
                            0x16AC0 <= u && u <= 0x16AC9
                        } else {
                            0x16B50 <= u && u <= 0x16B59
                        }
                    } else {
                        if u < 0x1E140 {
                            0x1D7CE <= u && u <= 0x1D7FF
                        } else {
                            0x1E140 <= u && u <= 0x1E149
                        }
                    }
                } else {
                    if u < 0x1E950 {
                        if u < 0x1E4F0 {
                            0x1E2F0 <= u && u <= 0x1E2F9
                        } else {
                            0x1E4F0 <= u && u <= 0x1E4F9
                        }
                    } else {
                        if u < 0x1FBF0 {
                            0x1E950 <= u && u <= 0x1E959
                        } else {
                            0x1FBF0 <= u && u <= 0x1FBF9
                        }
                    }
                }
            }
        }
    }
}

/// Whether `c` is a Unicode word character.
pub fn word_char(c: char) -> (r: bool)
    ensures
        r == is_word_char(c),
{
    let u = c as u32;
    if u < 0xAB09 {
        if u < 0xF00 {
            if u < 0xACB {
                if u < 0x840 {
                    if u < 0x483 {
                        if u < 0x2EC {
                            if u < 0xBA {
                                if u < 0x61 {
                                    if u < 0x41 {
                                        0x30 <= u && u <= 0x39
                                    } else {
                                        if u < 0x5F {
                                            0x41 <= u && u <= 0x5A
                                        } else {
                                            u == 0x5F
                                        }
                                    }
                                } else {
                                    if u < 0xAA {
                                        0x61 <= u && u <= 0x7A
                                    } else {
                                        if u < 0xB5 {
                                            u == 0xAA
                                        } else {
                                            u == 0xB5
                                        }
                                    }
                                }
                            } else {
                                if u < 0xF8 {
                                    if u < 0xC0 {
                                        u == 0xBA
                                    } else {
                                        if u < 0xD8 {
                                            0xC0 <= u && u <= 0xD6
                                        } else {
                                            0xD8 <= u && u <= 0xF6
                                        }
                                    }
                                } else {
                                    if u < 0x2C6 {
                                        0xF8 <= u && u <= 0x2C1
                                    } else {
                                        if u < 0x2E0 {
                                            0x2C6 <= u && u <= 0x2D1
                                        } else {
                                            0x2E0 <= u && u <= 0x2E4
                                        }
                                    }
                                }
                            }
                        } else {
                            if u < 0x386 {
                                if u < 0x376 {
                                    if u < 0x2EE {
                                        u == 0x2EC
                                    } else {
                                        if u < 0x300 {
                                            u == 0x2EE
                                        } else {
                                            0x300 <= u && u <= 0x374
                                        }
                                    }
                                } else {
                                    if u < 0x37A {
                                        0x376 <= u && u <= 0x377
                                    } else {
                                        if u < 0x37F {
                                            0x37A <= u && u <= 0x37D
                                        } else {
                                            u == 0x37F
                                        }
                                    }
                                }
                            } else {
                                if u < 0x38E {
                                    if u < 0x388 {
                                        u == 0x386
                                    } else {
                                        if u < 0x38C {
                                            0x388 <= u && u <= 0x38A
                                        } else {
                                            u == 0x38C
                                        }
                                    }
                                } else {
                                    if u < 0x3A3 {
                                        0x38E <= u && u <= 0x3A1
                                    } else {
                                        if u < 0x3F7 {
                                            0x3A3 <= u && u <= 0x3F5
                                        } else {
                                            0x3F7 <= u && u <= 0x481
                                        }
                                    }
                                }
                            }
                        }
                    } else {
                        if u < 0x620 {
                            if u < 0x5C1 {
                                if u < 0x560 {
                                    if u < 0x531 {
                                        0x483 <= u && u <= 0x52F
                                    } else {
                                        if u < 0x559 {
                                            0x531 <= u && u <= 0x556
                                        } else {
                                            u == 0x559
                                        }
                                    }
                                } else {
                                    if u < 0x591 {
                                        0x560 <= u && u <= 0x588
                                    } else {
                                        if u < 0x5BF {
                                            0x591 <= u && u <= 0x5BD
                                        } else {
                                            u == 0x5BF
                                        }
                                    }
                                }
                            } else {
                                if u < 0x5D0 {
                                    if u < 0x5C4 {
                                        0x5C1 <= u && u <= 0x5C2
                                    } else {
                                        if u < 0x5C7 {
                                            0x5C4 <= u && u <= 0x5C5
                                        } else {
                                            u == 0x5C7
                                        }
                                    }
                                } else {
                                    if u < 0x5EF {
                                        0x5D0 <= u && u <= 0x5EA
                                    } else {
                                        if u < 0x610 {
                                            0x5EF <= u && u <= 0x5F2
                                        } else {
                                            0x610 <= u && u <= 0x61A
                                        }
                                    }
                                }
                            }
                        } else {
                            if u < 0x710 {
                                if u < 0x6DF {
                                    if u < 0x66E {
                                        0x620 <= u && u <= 0x669
                                    } else {
                                        if u < 0x6D5 {
                                            0x66E <= u && u <= 0x6D3
                                        } else {
                                            0x6D5 <= u && u <= 0x6DC
                                        }
                                    }
                                } else {
                                    if u < 0x6EA {
                                        0x6DF <= u && u <= 0x6E8
                                    } else {
                                        if u < 0x6FF {
                                            0x6EA <= u && u <= 0x6FC
                                        } else {
                                            u == 0x6FF
                                        }
                                    }
                                }
                            } else {
                                if u < 0x7FA {
                                    if u < 0x74D {
                                        0x710 <= u && u <= 0x74A
                                    } else {
                                        if u < 0x7C0 {
                                            0x74D <= u && u <= 0x7B1
                                        } else {
                                            0x7C0 <= u && u <= 0x7F5
                                        }
                                    }
                                } else {
                                    if u < 0x7FD {
                                        u == 0x7FA
                                    } else {
                                        if u < 0x800 {
                                            u == 0x7FD
                                        } else {
                                            0x800 <= u && u <= 0x82D
                                        }
                                    }
                                }
                            }
                        }
                    }
                } else {
                    if u < 0xA05 {
                        if u < 0x9B2 {
                            if u < 0x966 {
                                if u < 0x889 {
                                    if u < 0x860 {
                                        0x840 <= u && u <= 0x85B
                                    } else {
                                        if u < 0x870 {
                                            0x860 <= u && u <= 0x86A
                                        } else {
                                            0x870 <= u && u <= 0x887
                                        }
                                    }
                                } else {
                                    if u < 0x898 {
                                        0x889 <= u && u <= 0x88E
                                    } else {
                                        if u < 0x8E3 {
                                            0x898 <= u && u <= 0x8E1
                                        } else {
                                            0x8E3 <= u && u <= 0x963
                                        }
                                    }
                                }
                            } else {
                                if u < 0x98F {
                                    if u < 0x971 {
                                        0x966 <= u && u <= 0x96F
                                    } else {
                                        if u < 0x985 {
                                            0x971 <= u && u <= 0x983
                                        } else {
                                            0x985 <= u && u <= 0x98C
                                        }
                                    }
                                } else {
                                    if u < 0x993 {
                                        0x98F <= u && u <= 0x990
                                    } else {
                                        if u < 0x9AA {
                                            0x993 <= u && u <= 0x9A8
                                        } else {
                                            0x9AA <= u && u <= 0x9B0
                                        }
                                    }
                                }
                            }
                        } else {
                            if u < 0x9DC {
                                if u < 0x9C7 {
                                    if u < 0x9B6 {
                                        u == 0x9B2
                                    } else {
                                        if u < 0x9BC {
                                            0x9B6 <= u && u <= 0x9B9
                                        } else {
                                            0x9BC <= u && u <= 0x9C4
                                        }
                                    }
                                } else {
                                    if u < 0x9CB {
                                        0x9C7 <= u && u <= 0x9C8
                                    } else {
                                        if u < 0x9D7 {
                                            0x9CB <= u && u <= 0x9CE
                                        } else {
                                            u == 0x9D7
                                        }
                                    }
                                }
                            } else {
                                if u < 0x9FC {
                                    if u < 0x9DF {
                                        0x9DC <= u && u <= 0x9DD
                                    } else {
                                        if u < 0x9E6 {
                                            0x9DF <= u && u <= 0x9E3
                                        } else {
                                            0x9E6 <= u && u <= 0x9F1
                                        }
                                    }
                                } else {
                                    if u < 0x9FE {
                                        u == 0x9FC
                                    } else {
                                        if u < 0xA01 {
                                            u == 0x9FE
                                        } else {
                                            0xA01 <= u && u <= 0xA03
                                        }
                                    }
                                }
                            }
                        }
                    } else {
                        if u < 0xA59 {
                            if u < 0xA38 {
                                if u < 0xA2A {
                                    if u < 0xA0F {
                                        0xA05 <= u && u <= 0xA0A
                                    } else {
                                        if u < 0xA13 {
                                            0xA0F <= u && u <= 0xA10
                                        } else {
                                            0xA13 <= u && u <= 0xA28
                                        }
                                    }
                                } else {
                                    if u < 0xA32 {
                                        0xA2A <= u && u <= 0xA30
                                    } else {
                                        if u < 0xA35 {
                                            0xA32 <= u && u <= 0xA33
                                        } else {
                                            0xA35 <= u && u <= 0xA36
                                        }
                                    }
                                }
                            } else {
                                if u < 0xA47 {
                                    if u < 0xA3C {
                                        0xA38 <= u && u <= 0xA39
                                    } else {
                                        if u < 0xA3E {
                                            u == 0xA3C
                                        } else {
                                            0xA3E <= u && u <= 0xA42
                                        }
                                    }
                                } else {
                                    if u < 0xA4B {
                                        0xA47 <= u && u <= 0xA48
                                    } else {
                                        if u < 0xA51 {
                                            0xA4B <= u && u <= 0xA4D
                                        } else {
                                            u == 0xA51
                                        }
                                    }
                                }
                            }
                        } else {
                            if u < 0xA93 {
                                if u < 0xA81 {
                                    if u < 0xA5E {
                                        0xA59 <= u && u <= 0xA5C
                                    } else {
                                        if u < 0xA66 {
                                            u == 0xA5E
                                        } else {
                                            0xA66 <= u && u <= 0xA75
                                        }
                                    }
                                } else {
                                    if u < 0xA85 {
                                        0xA81 <= u && u <= 0xA83
                                    } else {
                                        if u < 0xA8F {
                                            0xA85 <= u && u <= 0xA8D
                                        } else {
                                            0xA8F <= u && u <= 0xA91
                                        }
                                    }
                                }
                            } else {
                                if u < 0xAB5 {
                                    if u < 0xAAA {
                                        0xA93 <= u && u <= 0xAA8
                                    } else {
                                        if u < 0xAB2 {
                                            0xAAA <= u && u <= 0xAB0
                                        } else {
                                            0xAB2 <= u && u <= 0xAB3
                                        }
                                    }
                                } else {
                                    if u < 0xABC {
                                        0xAB5 <= u && u <= 0xAB9
                                    } else {
                                        if u < 0xAC7 {
                                            0xABC <= u && u <= 0xAC5
                                        } else {
                                            0xAC7 <= u && u <= 0xAC9
                                        }
                                    }
                                }
                            }
                        }
                    }
                }
            } else {
                if u < 0xC80 {
                    if u < 0xB99 {
                        if u < 0xB3C {
                            if u < 0xB05 {
                                if u < 0xAE6 {
                                    if u < 0xAD0 {
                                        0xACB <= u && u <= 0xACD
                                    } else {
                                        if u < 0xAE0 {
                                            u == 0xAD0
                                        } else {
                                            0xAE0 <= u && u <= 0xAE3
                                        }
                                    }
                                } else {
                                    if u < 0xAF9 {
                                        0xAE6 <= u && u <= 0xAEF
                                    } else {
                                        if u < 0xB01 {
                                            0xAF9 <= u && u <= 0xAFF
                                        } else {
                                            0xB01 <= u && u <= 0xB03
                                        }
                                    }
                                }
                            } else {
                                if u < 0xB2A {
                                    if u < 0xB0F {
                                        0xB05 <= u && u <= 0xB0C
                                    } else {
                                        if u < 0xB13 {
                                            0xB0F <= u && u <= 0xB10
                                        } else {
                                            0xB13 <= u && u <= 0xB28
                                        }
                                    }
                                } else {
                                    if u < 0xB32 {
                                        0xB2A <= u && u <= 0xB30
                                    } else {
                                        if u < 0xB35 {
                                            0xB32 <= u && u <= 0xB33
                                        } else {
                                            0xB35 <= u && u <= 0xB39
                                        }
                                    }
                                }
                            }
                        } else {
                            if u < 0xB66 {
                                if u < 0xB55 {
                                    if u < 0xB47 {
                                        0xB3C <= u && u <= 0xB44
                                    } else {
                                        if u < 0xB4B {
                                            0xB47 <= u && u <= 0xB48
                                        } else {
                                            0xB4B <= u && u <= 0xB4D
                                        }
                                    }
                                } else {
                                    if u < 0xB5C {
                                        0xB55 <= u && u <= 0xB57
                                    } else {
                                        if u < 0xB5F {
                                            0xB5C <= u && u <= 0xB5D
                                        } else {
                                            0xB5F <= u && u <= 0xB63
                                        }
                                    }
                                }
                            } else {
                                if u < 0xB85 {
                                    if u < 0xB71 {
                                        0xB66 <= u && u <= 0xB6F
                                    } else {
                                        if u < 0xB82 {
                                            u == 0xB71
                                        } else {
                                            0xB82 <= u && u <= 0xB83
                                        }
                                    }
                                } else {
                                    if u < 0xB8E {
                                        0xB85 <= u && u <= 0xB8A
                                    } else {
                                        if u < 0xB92 {
                                            0xB8E <= u && u <= 0xB90
                                        } else {
                                            0xB92 <= u && u <= 0xB95
                                        }
                                    }
                                }
                            }
                        }
                    } else {
                        if u < 0xC00 {
                            if u < 0xBBE {
                                if u < 0xBA3 {
                                    if u < 0xB9C {
                                        0xB99 <= u && u <= 0xB9A
                                    } else {
                                        if u < 0xB9E {
                                            u == 0xB9C
                                        } else {
                                            0xB9E <= u && u <= 0xB9F
                                        }
                                    }
                                } else {
                                    if u < 0xBA8 {
                                        0xBA3 <= u && u <= 0xBA4
                                    } else {
                                        if u < 0xBAE {
                                            0xBA8 <= u && u <= 0xBAA
                                        } else {
                                            0xBAE <= u && u <= 0xBB9
                                        }
                                    }
                                }
                            } else {
                                if u < 0xBD0 {
                                    if u < 0xBC6 {
                                        0xBBE <= u && u <= 0xBC2
                                    } else {
                                        if u < 0xBCA {
                                            0xBC6 <= u && u <= 0xBC8
                                        } else {
                                            0xBCA <= u && u <= 0xBCD
                                        }
                                    }
                                } else {
                                    if u < 0xBD7 {
                                        u == 0xBD0
                                    } else {
                                        if u < 0xBE6 {
                                            u == 0xBD7
                                        } else {
                                            0xBE6 <= u && u <= 0xBEF
                                        }
                                    }
                                }
                            }
                        } else {
                            if u < 0xC4A {
                                if u < 0xC2A {
                                    if u < 0xC0E {
                                        0xC00 <= u && u <= 0xC0C
                                    } else {
                                        if u < 0xC12 {
                                            0xC0E <= u && u <= 0xC10
                                        } else {
                                            0xC12 <= u && u <= 0xC28
                                        }
                                    }
                                } else {
                                    if u < 0xC3C {
                                        0xC2A <= u && u <= 0xC39
                                    } else {
                                        if u < 0xC46 {
                                            0xC3C <= u && u <= 0xC44
                                        } else {
                                            0xC46 <= u && u <= 0xC48
                                        }
                                    }
                                }
                            } else {
                                if u < 0xC5D {
                                    if u < 0xC55 {
                                        0xC4A <= u && u <= 0xC4D
                                    } else {
                                        if u < 0xC58 {
                                            0xC55 <= u && u <= 0xC56
                                        } else {
                                            0xC58 <= u && u <= 0xC5A
                                        }
                                    }
                                } else {
                                    if u < 0xC60 {
                                        u == 0xC5D
                                    } else {
                                        if u < 0xC66 {
                                            0xC60 <= u && u <= 0xC63
                                        } else {
                                            0xC66 <= u && u <= 0xC6F
                                        }
                                    }
                                }
                            }
                        }
                    }
                } else {
                    if u < 0xD85 {
                        if u < 0xCE6 {
                            if u < 0xCBC {
                                if u < 0xC92 {
                                    if u < 0xC85 {
                                        0xC80 <= u && u <= 0xC83
                                    } else {
                                        if u < 0xC8E {
                                            0xC85 <= u && u <= 0xC8C
                                        } else {
                                            0xC8E <= u && u <= 0xC90
                                        }
                                    }
                                } else {
                                    if u < 0xCAA {
                                        0xC92 <= u && u <= 0xCA8
                                    } else {
                                        if u < 0xCB5 {
                                            0xCAA <= u && u <= 0xCB3
                                        } else {
                                            0xCB5 <= u && u <= 0xCB9
                                        }
                                    }
                                }
                            } else {
                                if u < 0xCD5 {
                                    if u < 0xCC6 {
                                        0xCBC <= u && u <= 0xCC4
                                    } else {
                                        if u < 0xCCA {
                                            0xCC6 <= u && u <= 0xCC8
                                        } else {
                                            0xCCA <= u && u <= 0xCCD
                                        }
                                    }
                                } else {
                                    if u < 0xCDD {
                                        0xCD5 <= u && u <= 0xCD6
                                    } else {
                                        if u < 0xCE0 {
                                            0xCDD <= u && u <= 0xCDE
                                        } else {
                                            0xCE0 <= u && u <= 0xCE3
                                        }
                                    }
                                }
                            }
                        } else {
                            if u < 0xD4A {
                                if u < 0xD0E {
                                    if u < 0xCF1 {
                                        0xCE6 <= u && u <= 0xCEF
                                    } else {
                                        if u < 0xD00 {
                                            0xCF1 <= u && u <= 0xCF3
                                        } else {
                                            0xD00 <= u && u <= 0xD0C
                                        }
                                    }
                                } else {
                                    if u < 0xD12 {
                                        0xD0E <= u && u <= 0xD10
                                    } else {
                                        if u < 0xD46 {
                                            0xD12 <= u && u <= 0xD44
                                        } else {
                                            0xD46 <= u && u <= 0xD48
                                        }
                                    }
                                }
                            } else {
                                if u < 0xD66 {
                                    if u < 0xD54 {
                                        0xD4A <= u && u <= 0xD4E
                                    } else {
                                        if u < 0xD5F {
                                            0xD54 <= u && u <= 0xD57
                                        } else {
                                            0xD5F <= u && u <= 0xD63
                                        }
                                    }
                                } else {
                                    if u < 0xD7A {
                                        0xD66 <= u && u <= 0xD6F
                                    } else {
                                        if u < 0xD81 {
                                            0xD7A <= u && u <= 0xD7F
                                        } else {
                                            0xD81 <= u && u <= 0xD83
                                        }
                                    }
                                }
                            }
                        }
                    } else {
                        if u < 0xE40 {
                            if u < 0xDCF {
                                if u < 0xDBD {
                                    if u < 0xD9A {
                                        0xD85 <= u && u <= 0xD96
                                    } else {
                                        if u < 0xDB3 {
                                            0xD9A <= u && u <= 0xDB1
                                        } else {
                                            0xDB3 <= u && u <= 0xDBB
                                        }
                                    }
                                } else {
                                    if u < 0xDC0 {
                                        u == 0xDBD
                                    } else {
                                        if u < 0xDCA {
                                            0xDC0 <= u && u <= 0xDC6
                                        } else {
                                            u == 0xDCA
                                        }
                                    }
                                }
                            } else {
                                if u < 0xDE6 {
                                    if u < 0xDD6 {
                                        0xDCF <= u && u <= 0xDD4
                                    } else {
                                        if u < 0xDD8 {
                                            u == 0xDD6
                                        } else {
                                            0xDD8 <= u && u <= 0xDDF
                                        }
                                    }
                                } else {
                                    if u < 0xDF2 {
                                        0xDE6 <= u && u <= 0xDEF
                                    } else {
                                        if u < 0xE01 {
                                            0xDF2 <= u && u <= 0xDF3
                                        } else {
                                            0xE01 <= u && u <= 0xE3A
                                        }
                                    }
                                }
                            }
                        } else {
                            if u < 0xEA5 {
                                if u < 0xE84 {
                                    if u < 0xE50 {
                                        0xE40 <= u && u <= 0xE4E
                                    } else {
                                        if u < 0xE81 {
                                            0xE50 <= u && u <= 0xE59
                                        } else {
                                            0xE81 <= u && u <= 0xE82
                                        }
                                    }
                                } else {
                                    if u < 0xE86 {
                                        u == 0xE84
                                    } else {
                                        if u < 0xE8C {
                                            0xE86 <= u && u <= 0xE8A
                                        } else {
                                            0xE8C <= u && u <= 0xEA3
                                        }
                                    }
                                }
                            } else {
                                if u < 0xEC6 {
                                    if u < 0xEA7 {
                                        u == 0xEA5
                                    } else {
                                        if u < 0xEC0 {
                                            0xEA7 <= u && u <= 0xEBD
                                        } else {
                                            0xEC0 <= u && u <= 0xEC4
                                        }
                                    }
                                } else {
                                    if u < 0xED0 {
                                        if u < 0xEC8 {
                                            u == 0xEC6
                                        } else {
                                            0xEC8 <= u && u <= 0xECE
                                        }
                                    } else {
                                        if u < 0xEDC {
                                            0xED0 <= u && u <= 0xED9
                                        } else {
                                            0xEDC <= u && u <= 0xEDF
                                        }
                                    }
                                }
                            }
                        }
                    }
                }
            }
        } else {
            if u < 0x1FBE {
                if u < 0x1772 {
                    if u < 0x128A {
                        if u < 0x1000 {
                            if u < 0xF3E {
                                if u < 0xF35 {
                                    if u < 0xF18 {
                                        u == 0xF00
                                    } else {
                                        if u < 0xF20 {
                                            0xF18 <= u && u <= 0xF19
                                        } else {
                                            0xF20 <= u && u <= 0xF29
                                        }
                                    }
                                } else {
                                    if u < 0xF37 {
                                        u == 0xF35
                                    } else {
                                        if u < 0xF39 {
                                            u == 0xF37
                                        } else {
                                            u == 0xF39
                                        }
                                    }
                                }
                            } else {
                                if u < 0xF86 {
                                    if u < 0xF49 {
                                        0xF3E <= u && u <= 0xF47
                                    } else {
                                        if u < 0xF71 {
                                            0xF49 <= u && u <= 0xF6C
                                        } else {
                                            0xF71 <= u && u <= 0xF84
                                        }
                                    }
                                } else {
                                    if u < 0xF99 {
                                        0xF86 <= u && u <= 0xF97
                                    } else {
                                        if u < 0xFC6 {
                                            0xF99 <= u && u <= 0xFBC
                                        } else {
                                            u == 0xFC6
                                        }
                                    }
                                }
                            }
                        } else {
                            if u < 0x10FC {
                                if u < 0x10C7 {
                                    if u < 0x1050 {
                                        0x1000 <= u && u <= 0x1049
                                    } else {
                                        if u < 0x10A0 {
                                            0x1050 <= u && u <= 0x109D
                                        } else {
                                            0x10A0 <= u && u <= 0x10C5
                                        }
                                    }
                                } else {
                                    if u < 0x10CD {
                                        u == 0x10C7
                                    } else {
                                        if u < 0x10D0 {
                                            u == 0x10CD
                                        } else {
                                            0x10D0 <= u && u <= 0x10FA
                                        }
                                    }
                                }
                            } else {
                                if u < 0x1258 {
                                    if u < 0x124A {
                                        0x10FC <= u && u <= 0x1248
                                    } else {
                                        if u < 0x1250 {
                                            0x124A <= u && u <= 0x124D
                                        } else {
                                            0x1250 <= u && u <= 0x1256
                                        }
                                    }
                                } else {
                                    if u < 0x125A {
                                        u == 0x1258
                                    } else {
                                        if u < 0x1260 {
                                            0x125A <= u && u <= 0x125D
                                        } else {
                                            0x1260 <= u && u <= 0x1288
                                        }
                                    }
                                }
                            }
                        }
                    } else {
                        if u < 0x13A0 {
                            if u < 0x12C8 {
                                if u < 0x12B8 {
                                    if u < 0x1290 {
                                        0x128A <= u && u <= 0x128D
                                    } else {
                                        if u < 0x12B2 {
                                            0x1290 <= u && u <= 0x12B0
                                        } else {
                                            0x12B2 <= u && u <= 0x12B5
                                        }
                                    }
                                } else {
                                    if u < 0x12C0 {
                                        0x12B8 <= u && u <= 0x12BE
                                    } else {
                                        if u < 0x12C2 {
                                            u == 0x12C0
                                        } else {
                                            0x12C2 <= u && u <= 0x12C5
                                        }
                                    }
                                }
                            } else {
                                if u < 0x1318 {
                                    if u < 0x12D8 {
                                        0x12C8 <= u && u <= 0x12D6
                                    } else {
                                        if u < 0x1312 {
                                            0x12D8 <= u && u <= 0x1310
                                        } else {
                                            0x1312 <= u && u <= 0x1315
                                        }
                                    }
                                } else {
                                    if u < 0x135D {
                                        0x1318 <= u && u <= 0x135A
                                    } else {
                                        if u < 0x1380 {
                                            0x135D <= u && u <= 0x135F
                                        } else {
                                            0x1380 <= u && u <= 0x138F
                                        }
                                    }
                                }
                            }
                        } else {
                            if u < 0x16EE {
                                if u < 0x166F {
                                    if u < 0x13F8 {
                                        0x13A0 <= u && u <= 0x13F5
                                    } else {
                                        if u < 0x1401 {
                                            0x13F8 <= u && u <= 0x13FD
                                        } else {
                                            0x1401 <= u && u <= 0x166C
                                        }
                                    }
                                } else {
                                    if u < 0x1681 {
                                        0x166F <= u && u <= 0x167F
                                    } else {
                                        if u < 0x16A0 {
                                            0x1681 <= u && u <= 0x169A
                                        } else {
                                            0x16A0 <= u && u <= 0x16EA
                                        }
                                    }
                                }
                            } else {
                                if u < 0x1740 {
                                    if u < 0x1700 {
                                        0x16EE <= u && u <= 0x16F8
                                    } else {
                                        if u < 0x171F {
                                            0x1700 <= u && u <= 0x1715
                                        } else {
                                            0x171F <= u && u <= 0x1734
                                        }
                                    }
                                } else {
                                    if u < 0x1760 {
                                        0x1740 <= u && u <= 0x1753
                                    } else {
                                        if u < 0x176E {
                                            0x1760 <= u && u <= 0x176C
                                        } else {
                                            0x176E <= u && u <= 0x1770
                                        }
                                    }
                                }
                            }
                        }
                    }
                } else {
                    if u < 0x1AB0 {
                        if u < 0x1930 {
                            if u < 0x180F {
                                if u < 0x17DC {
                                    if u < 0x1780 {
                                        0x1772 <= u && u <= 0x1773
                                    } else {
                                        if u < 0x17D7 {
                                            0x1780 <= u && u <= 0x17D3
                                        } else {
                                            u == 0x17D7
                                        }
                                    }
                                } else {
                                    if u < 0x17E0 {
                                        0x17DC <= u && u <= 0x17DD
                                    } else {
                                        if u < 0x180B {
                                            0x17E0 <= u && u <= 0x17E9
                                        } else {
                                            0x180B <= u && u <= 0x180D
                                        }
                                    }
                                }
                            } else {
                                if u < 0x18B0 {
                                    if u < 0x1820 {
                                        0x180F <= u && u <= 0x1819
                                    } else {
                                        if u < 0x1880 {
                                            0x1820 <= u && u <= 0x1878
                                        } else {
                                            0x1880 <= u && u <= 0x18AA
                                        }
                                    }
                                } else {
                                    if u < 0x1900 {
                                        0x18B0 <= u && u <= 0x18F5
                                    } else {
                                        if u < 0x1920 {
                                            0x1900 <= u && u <= 0x191E
                                        } else {
                                            0x1920 <= u && u <= 0x192B
                                        }
                                    }
                                }
                            }
                        } else {
                            if u < 0x1A00 {
                                if u < 0x1980 {
                                    if u < 0x1946 {
                                        0x1930 <= u && u <= 0x193B
                                    } else {
                                        if u < 0x1970 {
                                            0x1946 <= u && u <= 0x196D
                                        } else {
                                            0x1970 <= u && u <= 0x1974
                                        }
                                    }
                                } else {
                                    if u < 0x19B0 {
                                        0x1980 <= u && u <= 0x19AB
                                    } else {
                                        if u < 0x19D0 {
                                            0x19B0 <= u && u <= 0x19C9
                                        } else {
                                            0x19D0 <= u && u <= 0x19D9
                                        }
                                    }
                                }
                            } else {
                                if u < 0x1A7F {
                                    if u < 0x1A20 {
                                        0x1A00 <= u && u <= 0x1A1B
                                    } else {
                                        if u < 0x1A60 {
                                            0x1A20 <= u && u <= 0x1A5E
                                        } else {
                                            0x1A60 <= u && u <= 0x1A7C
                                        }
                                    }
                                } else {
                                    if u < 0x1A90 {
                                        0x1A7F <= u && u <= 0x1A89
                                    } else {
                                        if u < 0x1AA7 {
                                            0x1A90 <= u && u <= 0x1A99
                                        } else {
                                            u == 0x1AA7
                                        }
                                    }
                                }
                            }
                        }
                    } else {
                        if u < 0x1CD4 {
                            if u < 0x1C40 {
                                if u < 0x1B6B {
                                    if u < 0x1B00 {
                                        0x1AB0 <= u && u <= 0x1ACE
                                    } else {
                                        if u < 0x1B50 {
                                            0x1B00 <= u && u <= 0x1B4C
                                        } else {
                                            0x1B50 <= u && u <= 0x1B59
                                        }
                                    }
                                } else {
                                    if u < 0x1B80 {
                                        0x1B6B <= u && u <= 0x1B73
                                    } else {
                                        if u < 0x1C00 {
                                            0x1B80 <= u && u <= 0x1BF3
                                        } else {
                                            0x1C00 <= u && u <= 0x1C37
                                        }
                                    }
                                }
                            } else {
                                if u < 0x1C90 {
                                    if u < 0x1C4D {
                                        0x1C40 <= u && u <= 0x1C49
                                    } else {
                                        if u < 0x1C80 {
                                            0x1C4D <= u && u <= 0x1C7D
                                        } else {
                                            0x1C80 <= u && u <= 0x1C88
                                        }
                                    }
                                } else {
                                    if u < 0x1CBD {
                                        0x1C90 <= u && u <= 0x1CBA
                                    } else {
                                        if u < 0x1CD0 {
                                            0x1CBD <= u && u <= 0x1CBF
                                        } else {
                                            0x1CD0 <= u && u <= 0x1CD2
                                        }
                                    }
                                }
                            }
                        } else {
                            if u < 0x1F59 {
                                if u < 0x1F20 {
                                    if u < 0x1D00 {
                                        0x1CD4 <= u && u <= 0x1CFA
                                    } else {
                                        if u < 0x1F18 {
                                            0x1D00 <= u && u <= 0x1F15
                                        } else {
                                            0x1F18 <= u && u <= 0x1F1D
                                        }
                                    }
                                } else {
                                    if u < 0x1F48 {
                                        0x1F20 <= u && u <= 0x1F45
                                    } else {
                                        if u < 0x1F50 {
                                            0x1F48 <= u && u <= 0x1F4D
                                        } else {
                                            0x1F50 <= u && u <= 0x1F57
                                        }
                                    }
                                }
                            } else {
                                if u < 0x1F5F {
                                    if u < 0x1F5B {
                                        u == 0x1F59
                                    } else {
                                        if u < 0x1F5D {
                                            u == 0x1F5B
                                        } else {
                                            u == 0x1F5D
                                        }
                                    }
                                } else {
                                    if u < 0x1F80 {
                                        0x1F5F <= u && u <= 0x1F7D
                                    } else {
                                        if u < 0x1FB6 {
                                            0x1F80 <= u && u <= 0x1FB4
                                        } else {
                                            0x1FB6 <= u && u <= 0x1FBC
                                        }
                                    }
                                }
                            }
                        }
                    }
                }
            } else {
                if u < 0x3005 {
                    if u < 0x212F {
                        if u < 0x207F {
                            if u < 0x1FF2 {
                                if u < 0x1FD0 {
                                    if u < 0x1FC2 {
                                        u == 0x1FBE
                                    } else {
                                        if u < 0x1FC6 {
                                            0x1FC2 <= u && u <= 0x1FC4
                                        } else {
                                            0x1FC6 <= u && u <= 0x1FCC
                                        }
                                    }
                                } else {
                                    if u < 0x1FD6 {
                                        0x1FD0 <= u && u <= 0x1FD3
                                    } else {
                                        if u < 0x1FE0 {
                                            0x1FD6 <= u && u <= 0x1FDB
                                        } else {
                                            0x1FE0 <= u && u <= 0x1FEC
                                        }
                                    }
                                }
                            } else {
                                if u < 0x203F {
                                    if u < 0x1FF6 {
                                        0x1FF2 <= u && u <= 0x1FF4
                                    } else {
                                        if u < 0x200C {
                                            0x1FF6 <= u && u <= 0x1FFC
                                        } else {
                                            0x200C <= u && u <= 0x200D
                                        }
                                    }
                                } else {
                                    if u < 0x2054 {
                                        0x203F <= u && u <= 0x2040
                                    } else {
                                        if u < 0x2071 {
                                            u == 0x2054
                                        } else {
                                            u == 0x2071
                                        }
                                    }
                                }
                            }
                        } else {
                            if u < 0x2115 {
                                if u < 0x2102 {
                                    if u < 0x2090 {
                                        u == 0x207F
                                    } else {
                                        if u < 0x20D0 {
                                            0x2090 <= u && u <= 0x209C
                                        } else {
                                            0x20D0 <= u && u <= 0x20F0
                                        }
                                    }
                                } else {
                                    if u < 0x2107 {
                                        u == 0x2102
                                    } else {
                                        if u < 0x210A {
                                            u == 0x2107
                                        } else {
                                            0x210A <= u && u <= 0x2113
                                        }
                                    }
                                }
                            } else {
                                if u < 0x2126 {
                                    if u < 0x2119 {
                                        u == 0x2115
                                    } else {
                                        if u < 0x2124 {
                                            0x2119 <= u && u <= 0x211D
                                        } else {
                                            u == 0x2124
                                        }
                                    }
                                } else {
                                    if u < 0x2128 {
                                        u == 0x2126
                                    } else {
                                        if u < 0x212A {
                                            u == 0x2128
                                        } else {
                                            0x212A <= u && u <= 0x212D
                                        }
                                    }
                                }
                            }
                        }
                    } else {
                        if u < 0x2D6F {
                            if u < 0x2C00 {
                                if u < 0x214E {
                                    if u < 0x213C {
                                        0x212F <= u && u <= 0x2139
                                    } else {
                                        if u < 0x2145 {
                                            0x213C <= u && u <= 0x213F
                                        } else {
                                            0x2145 <= u && u <= 0x2149
                                        }
                                    }
                                } else {
                                    if u < 0x2160 {
                                        u == 0x214E
                                    } else {
                                        if u < 0x24B6 {
                                            0x2160 <= u && u <= 0x2188
                                        } else {
                                            0x24B6 <= u && u <= 0x24E9
                                        }
                                    }
                                }
                            } else {
                                if u < 0x2D27 {
                                    if u < 0x2CEB {
                                        0x2C00 <= u && u <= 0x2CE4
                                    } else {
                                        if u < 0x2D00 {
                                            0x2CEB <= u && u <= 0x2CF3
                                        } else {
                                            0x2D00 <= u && u <= 0x2D25
                                        }
                                    }
                                } else {
                                    if u < 0x2D2D {
                                        u == 0x2D27
                                    } else {
                                        if u < 0x2D30 {
                                            u == 0x2D2D
                                        } else {
                                            0x2D30 <= u && u <= 0x2D67
                                        }
                                    }
                                }
                            }
                        } else {
                            if u < 0x2DC0 {
                                if u < 0x2DA8 {
                                    if u < 0x2D7F {
                                        u == 0x2D6F
                                    } else {
                                        if u < 0x2DA0 {
                                            0x2D7F <= u && u <= 0x2D96
                                        } else {
                                            0x2DA0 <= u && u <= 0x2DA6
                                        }
                                    }
                                } else {
                                    if u < 0x2DB0 {
                                        0x2DA8 <= u && u <= 0x2DAE
                                    } else {
                                        if u < 0x2DB8 {
                                            0x2DB0 <= u && u <= 0x2DB6
                                        } else {
                                            0x2DB8 <= u && u <= 0x2DBE
                                        }
                                    }
                                }
                            } else {
                                if u < 0x2DD8 {
                                    if u < 0x2DC8 {
                                        0x2DC0 <= u && u <= 0x2DC6
                                    } else {
                                        if u < 0x2DD0 {
                                            0x2DC8 <= u && u <= 0x2DCE
                                        } else {
                                            0x2DD0 <= u && u <= 0x2DD6
                                        }
                                    }
                                } else {
                                    if u < 0x2DE0 {
                                        0x2DD8 <= u && u <= 0x2DDE
                                    } else {
                                        if u < 0x2E2F {
                                            0x2DE0 <= u && u <= 0x2DFF
                                        } else {
                                            u == 0x2E2F
                                        }
                                    }
                                }
                            }
                        }
                    }
                } else {
                    if u < 0xA7D0 {
                        if u < 0x31F0 {
                            if u < 0x309D {
                                if u < 0x3038 {
                                    if u < 0x3021 {
                                        0x3005 <= u && u <= 0x3007
                                    } else {
                                        if u < 0x3031 {
                                            0x3021 <= u && u <= 0x302F
                                        } else {
                                            0x3031 <= u && u <= 0x3035
                                        }
                                    }
                                } else {
                                    if u < 0x3041 {
                                        0x3038 <= u && u <= 0x303C
                                    } else {
                                        if u < 0x3099 {
                                            0x3041 <= u && u <= 0x3096
                                        } else {
                                            0x3099 <= u && u <= 0x309A
                                        }
                                    }
                                }
                            } else {
                                if u < 0x3105 {
                                    if u < 0x30A1 {
                                        0x309D <= u && u <= 0x309F
                                    } else {
                                        if u < 0x30FC {
                                            0x30A1 <= u && u <= 0x30FA
                                        } else {
                                            0x30FC <= u && u <= 0x30FF
                                        }
                                    }
                                } else {
                                    if u < 0x3131 {
                                        0x3105 <= u && u <= 0x312F
                                    } else {
                                        if u < 0x31A0 {
                                            0x3131 <= u && u <= 0x318E
                                        } else {
                                            0x31A0 <= u && u <= 0x31BF
                                        }
                                    }
                                }
                            }
                        } else {
                            if u < 0xA640 {
                                if u < 0xA4D0 {
                                    if u < 0x3400 {
                                        0x31F0 <= u && u <= 0x31FF
                                    } else {
                                        if u < 0x4E00 {
                                            0x3400 <= u && u <= 0x4DBF
                                        } else {
                                            0x4E00 <= u && u <= 0xA48C
                                        }
                                    }
                                } else {
                                    if u < 0xA500 {
                                        0xA4D0 <= u && u <= 0xA4FD
                                    } else {
                                        if u < 0xA610 {
                                            0xA500 <= u && u <= 0xA60C
                                        } else {
                                            0xA610 <= u && u <= 0xA62B
                                        }
                                    }
                                }
                            } else {
                                if u < 0xA717 {
                                    if u < 0xA674 {
                                        0xA640 <= u && u <= 0xA672
                                    } else {
                                        if u < 0xA67F {
                                            0xA674 <= u && u <= 0xA67D
                                        } else {
                                            0xA67F <= u && u <= 0xA6F1
                                        }
                                    }
                                } else {
                                    if u < 0xA722 {
                                        0xA717 <= u && u <= 0xA71F
                                    } else {
                                        if u < 0xA78B {
                                            0xA722 <= u && u <= 0xA788
                                        } else {
                                            0xA78B <= u && u <= 0xA7CA
                                        }
                                    }
                                }
                            }
                        }
                    } else {
                        if u < 0xA960 {
                            if u < 0xA880 {
                                if u < 0xA7F2 {
                                    if u < 0xA7D3 {
                                        0xA7D0 <= u && u <= 0xA7D1
                                    } else {
                                        if u < 0xA7D5 {
                                            u == 0xA7D3
                                        } else {
                                            0xA7D5 <= u && u <= 0xA7D9
                                        }
                                    }
                                } else {
                                    if u < 0xA82C {
                                        0xA7F2 <= u && u <= 0xA827
                                    } else {
                                        if u < 0xA840 {
                                            u == 0xA82C
                                        } else {
                                            0xA840 <= u && u <= 0xA873
                                        }
                                    }
                                }
                            } else {
                                if u < 0xA8FB {
                                    if u < 0xA8D0 {
                                        0xA880 <= u && u <= 0xA8C5
                                    } else {
                                        if u < 0xA8E0 {
                                            0xA8D0 <= u && u <= 0xA8D9
                                        } else {
                                            0xA8E0 <= u && u <= 0xA8F7
                                        }
                                    }
                                } else {
                                    if u < 0xA8FD {
                                        u == 0xA8FB
                                    } else {
                                        if u < 0xA930 {
                                            0xA8FD <= u && u <= 0xA92D
                                        } else {
                                            0xA930 <= u && u <= 0xA953
                                        }
                                    }
                                }
                            }
                        } else {
                            if u < 0xAA50 {
                                if u < 0xA9E0 {
                                    if u < 0xA980 {
                                        0xA960 <= u && u <= 0xA97C
                                    } else {
                                        if u < 0xA9CF {
                                            0xA980 <= u && u <= 0xA9C0
                                        } else {
                                            0xA9CF <= u && u <= 0xA9D9
                                        }
                                    }
                                } else {
                                    if u < 0xAA00 {
                                        0xA9E0 <= u && u <= 0xA9FE
                                    } else {
                                        if u < 0xAA40 {
                                            0xAA00 <= u && u <= 0xAA36
                                        } else {
                                            0xAA40 <= u && u <= 0xAA4D
                                        }
                                    }
                                }
                            } else {
                                if u < 0xAADB {
                                    if u < 0xAA60 {
                                        0xAA50 <= u && u <= 0xAA59
                                    } else {
                                        if u < 0xAA7A {
                                            0xAA60 <= u && u <= 0xAA76
                                        } else {
                                            0xAA7A <= u && u <= 0xAAC2
                                        }
                                    }
                                } else {
                                    if u < 0xAAF2 {
                                        if u < 0xAAE0 {
                                            0xAADB <= u && u <= 0xAADD
                                        } else {
                                            0xAAE0 <= u && u <= 0xAAEF
                                        }
                                    } else {
                                        if u < 0xAB01 {
                                            0xAAF2 <= u && u <= 0xAAF6
                                        } else {
                                            0xAB01 <= u && u <= 0xAB06
                                        }
                                    }
                                }
                            }
                        }
                    }
                }
            }
        }
    } else {
        if u < 0x119AA {
            if u < 0x10A05 {
                if u < 0x10080 {
                    if u < 0xFD50 {
                        if u < 0xF900 {
                            if u < 0xAB70 {
                                if u < 0xAB28 {
                                    if u < 0xAB11 {
                                        0xAB09 <= u && u <= 0xAB0E
                                    } else {
                                        if u < 0xAB20 {
                                            0xAB11 <= u && u <= 0xAB16
                                        } else {
                                            0xAB20 <= u && u <= 0xAB26
                                        }
                                    }
                                } else {
                                    if u < 0xAB30 {
                                        0xAB28 <= u && u <= 0xAB2E
                                    } else {
                                        if u < 0xAB5C {
                                            0xAB30 <= u && u <= 0xAB5A
                                        } else {
                                            0xAB5C <= u && u <= 0xAB69
                                        }
                                    }
                                }
                            } else {
                                if u < 0xAC00 {
                                    if u < 0xABEC {
                                        0xAB70 <= u && u <= 0xABEA
                                    } else {
                                        if u < 0xABF0 {
                                            0xABEC <= u && u <= 0xABED
                                        } else {
                                            0xABF0 <= u && u <= 0xABF9
                                        }
                                    }
                                } else {
                                    if u < 0xD7B0 {
                                        0xAC00 <= u && u <= 0xD7A3
                                    } else {
                                        if u < 0xD7CB {
                                            0xD7B0 <= u && u <= 0xD7C6
                                        } else {
                                            0xD7CB <= u && u <= 0xD7FB
                                        }
                                    }
                                }
                            }
                        } else {
                            if u < 0xFB38 {
                                if u < 0xFB13 {
                                    if u < 0xFA70 {
                                        0xF900 <= u && u <= 0xFA6D
                                    } else {
                                        if u < 0xFB00 {
                                            0xFA70 <= u && u <= 0xFAD9
                                        } else {
                                            0xFB00 <= u && u <= 0xFB06
                                        }
                                    }
                                } else {
                                    if u < 0xFB1D {
                                        0xFB13 <= u && u <= 0xFB17
                                    } else {
                                        if u < 0xFB2A {
                                            0xFB1D <= u && u <= 0xFB28
                                        } else {
                                            0xFB2A <= u && u <= 0xFB36
                                        }
                                    }
                                }
                            } else {
                                if u < 0xFB43 {
                                    if u < 0xFB3E {
                                        0xFB38 <= u && u <= 0xFB3C
                                    } else {
                                        if u < 0xFB40 {
                                            u == 0xFB3E
                                        } else {
                                            0xFB40 <= u && u <= 0xFB41
                                        }
                                    }
                                } else {
                                    if u < 0xFB46 {
                                        0xFB43 <= u && u <= 0xFB44
                                    } else {
                                        if u < 0xFBD3 {
                                            0xFB46 <= u && u <= 0xFBB1
                                        } else {
                                            0xFBD3 <= u && u <= 0xFD3D
                                        }
                                    }
                                }
                            }
                        }
                    } else {
                        if u < 0xFF41 {
                            if u < 0xFE4D {
                                if u < 0xFE00 {
                                    if u < 0xFD92 {
                                        0xFD50 <= u && u <= 0xFD8F
                                    } else {
                                        if u < 0xFDF0 {
                                            0xFD92 <= u && u <= 0xFDC7
                                        } else {
                                            0xFDF0 <= u && u <= 0xFDFB
                                        }
                                    }
                                } else {
                                    if u < 0xFE20 {
                                        0xFE00 <= u && u <= 0xFE0F
                                    } else {
                                        if u < 0xFE33 {
                                            0xFE20 <= u && u <= 0xFE2F
                                        } else {
                                            0xFE33 <= u && u <= 0xFE34
                                        }
                                    }
                                }
                            } else {
                                if u < 0xFF10 {
                                    if u < 0xFE70 {
                                        0xFE4D <= u && u <= 0xFE4F
                                    } else {
                                        if u < 0xFE76 {
                                            0xFE70 <= u && u <= 0xFE74
                                        } else {
                                            0xFE76 <= u && u <= 0xFEFC
                                        }
                                    }
                                } else {
                                    if u < 0xFF21 {
                                        0xFF10 <= u && u <= 0xFF19
                                    } else {
                                        if u < 0xFF3F {
                                            0xFF21 <= u && u <= 0xFF3A
                                        } else {
                                            u == 0xFF3F
                                        }
                                    }
                                }
                            }
                        } else {
                            if u < 0x10000 {
                                if u < 0xFFCA {
                                    if u < 0xFF66 {
                                        0xFF41 <= u && u <= 0xFF5A
                                    } else {
                                        if u < 0xFFC2 {
                                            0xFF66 <= u && u <= 0xFFBE
                                        } else {
                                            0xFFC2 <= u && u <= 0xFFC7
                                        }
                                    }
                                } else {
                                    if u < 0xFFD2 {
                                        0xFFCA <= u && u <= 0xFFCF
                                    } else {
                                        if u < 0xFFDA {
                                            0xFFD2 <= u && u <= 0xFFD7
                                        } else {
                                            0xFFDA <= u && u <= 0xFFDC
                                        }
                                    }
                                }
                            } else {
                                if u < 0x1003C {
                                    if u < 0x1000D {
                                        0x10000 <= u && u <= 0x1000B
                                    } else {
                                        if u < 0x10028 {
                                            0x1000D <= u && u <= 0x10026
                                        } else {
                                            0x10028 <= u && u <= 0x1003A
                                        }
                                    }
                                } else {
                                    if u < 0x1003F {
                                        0x1003C <= u && u <= 0x1003D
                                    } else {
                                        if u < 0x10050 {
                                            0x1003F <= u && u <= 0x1004D
                                        } else {
                                            0x10050 <= u && u <= 0x1005D
                                        }
                                    }
                                }
                            }
                        }
                    }
                } else {
                    if u < 0x105A3 {
                        if u < 0x103D1 {
                            if u < 0x10300 {
                                if u < 0x10280 {
                                    if u < 0x10140 {
                                        0x10080 <= u && u <= 0x100FA
                                    } else {
                                        if u < 0x101FD {
                                            0x10140 <= u && u <= 0x10174
                                        } else {
                                            u == 0x101FD
                                        }
                                    }
                                } else {
                                    if u < 0x102A0 {
                                        0x10280 <= u && u <= 0x1029C
                                    } else {
                                        if u < 0x102E0 {
                                            0x102A0 <= u && u <= 0x102D0
                                        } else {
                                            u == 0x102E0
                                        }
                                    }
                                }
                            } else {
                                if u < 0x10380 {
                                    if u < 0x1032D {
                                        0x10300 <= u && u <= 0x1031F
                                    } else {
                                        if u < 0x10350 {
                                            0x1032D <= u && u <= 0x1034A
                                        } else {
                                            0x10350 <= u && u <= 0x1037A
                                        }
                                    }
                                } else {
                                    if u < 0x103A0 {
                                        0x10380 <= u && u <= 0x1039D
                                    } else {
                                        if u < 0x103C8 {
                                            0x103A0 <= u && u <= 0x103C3
                                        } else {
                                            0x103C8 <= u && u <= 0x103CF
                                        }
                                    }
                                }
                            }
                        } else {
                            if u < 0x10530 {
                                if u < 0x104B0 {
                                    if u < 0x10400 {
                                        0x103D1 <= u && u <= 0x103D5
                                    } else {
                                        if u < 0x104A0 {
                                            0x10400 <= u && u <= 0x1049D
                                        } else {
                                            0x104A0 <= u && u <= 0x104A9
                                        }
                                    }
                                } else {
                                    if u < 0x104D8 {
                                        0x104B0 <= u && u <= 0x104D3
                                    } else {
                                        if u < 0x10500 {
                                            0x104D8 <= u && u <= 0x104FB
                                        } else {
                                            0x10500 <= u && u <= 0x10527
                                        }
                                    }
                                }
                            } else {
                                if u < 0x1058C {
                                    if u < 0x10570 {
                                        0x10530 <= u && u <= 0x10563
                                    } else {
                                        if u < 0x1057C {
                                            0x10570 <= u && u <= 0x1057A
                                        } else {
                                            0x1057C <= u && u <= 0x1058A
                                        }
                                    }
                                } else {
                                    if u < 0x10594 {
                                        0x1058C <= u && u <= 0x10592
                                    } else {
                                        if u < 0x10597 {
                                            0x10594 <= u && u <= 0x10595
                                        } else {
                                            0x10597 <= u && u <= 0x105A1
                                        }
                                    }
                                }
                            }
                        }
                    } else {
                        if u < 0x10837 {
                            if u < 0x10780 {
                                if u < 0x10600 {
                                    if u < 0x105B3 {
                                        0x105A3 <= u && u <= 0x105B1
                                    } else {
                                        if u < 0x105BB {
                                            0x105B3 <= u && u <= 0x105B9
                                        } else {
                                            0x105BB <= u && u <= 0x105BC
                                        }
                                    }
                                } else {
                                    if u < 0x10740 {
                                        0x10600 <= u && u <= 0x10736
                                    } else {
                                        if u < 0x10760 {
                                            0x10740 <= u && u <= 0x10755
                                        } else {
                                            0x10760 <= u && u <= 0x10767
                                        }
                                    }
                                }
                            } else {
                                if u < 0x10800 {
                                    if u < 0x10787 {
                                        0x10780 <= u && u <= 0x10785
                                    } else {
                                        if u < 0x107B2 {
                                            0x10787 <= u && u <= 0x107B0
                                        } else {
                                            0x107B2 <= u && u <= 0x107BA
                                        }
                                    }
                                } else {
                                    if u < 0x10808 {
                                        0x10800 <= u && u <= 0x10805
                                    } else {
                                        if u < 0x1080A {
                                            u == 0x10808
                                        } else {
                                            0x1080A <= u && u <= 0x10835
                                        }
                                    }
                                }
                            }
                        } else {
                            if u < 0x108F4 {
                                if u < 0x10860 {
                                    if u < 0x1083C {
                                        0x10837 <= u && u <= 0x10838
                                    } else {
                                        if u < 0x1083F {
                                            u == 0x1083C
                                        } else {
                                            0x1083F <= u && u <= 0x10855
                                        }
                                    }
                                } else {
                                    if u < 0x10880 {
                                        0x10860 <= u && u <= 0x10876
                                    } else {
                                        if u < 0x108E0 {
                                            0x10880 <= u && u <= 0x1089E
                                        } else {
                                            0x108E0 <= u && u <= 0x108F2
                                        }
                                    }
                                }
                            } else {
                                if u < 0x10980 {
                                    if u < 0x10900 {
                                        0x108F4 <= u && u <= 0x108F5
                                    } else {
                                        if u < 0x10920 {
                                            0x10900 <= u && u <= 0x10915
                                        } else {
                                            0x10920 <= u && u <= 0x10939
                                        }
                                    }
                                } else {
                                    if u < 0x109BE {
                                        0x10980 <= u && u <= 0x109B7
                                    } else {
                                        if u < 0x10A00 {
                                            0x109BE <= u && u <= 0x109BF
                                        } else {
                                            0x10A00 <= u && u <= 0x10A03
                                        }
                                    }
                                }
                            }
                        }
                    }
                }
            } else {
                if u < 0x1128A {
                    if u < 0x10F30 {
                        if u < 0x10B60 {
                            if u < 0x10A60 {
                                if u < 0x10A19 {
                                    if u < 0x10A0C {
                                        0x10A05 <= u && u <= 0x10A06
                                    } else {
                                        if u < 0x10A15 {
                                            0x10A0C <= u && u <= 0x10A13
                                        } else {
                                            0x10A15 <= u && u <= 0x10A17
                                        }
                                    }
                                } else {
                                    if u < 0x10A38 {
                                        0x10A19 <= u && u <= 0x10A35
                                    } else {
                                        if u < 0x10A3F {
                                            0x10A38 <= u && u <= 0x10A3A
                                        } else {
                                            u == 0x10A3F
                                        }
                                    }
                                }
                            } else {
                                if u < 0x10AC9 {
                                    if u < 0x10A80 {
                                        0x10A60 <= u && u <= 0x10A7C
                                    } else {
                                        if u < 0x10AC0 {
                                            0x10A80 <= u && u <= 0x10A9C
                                        } else {
                                            0x10AC0 <= u && u <= 0x10AC7
                                        }
                                    }
                                } else {
                                    if u < 0x10B00 {
                                        0x10AC9 <= u && u <= 0x10AE6
                                    } else {
                                        if u < 0x10B40 {
                                            0x10B00 <= u && u <= 0x10B35
                                        } else {
                                            0x10B40 <= u && u <= 0x10B55
                                        }
                                    }
                                }
                            }
                        } else {
                            if u < 0x10D30 {
                                if u < 0x10C80 {
                                    if u < 0x10B80 {
                                        0x10B60 <= u && u <= 0x10B72
                                    } else {
                                        if u < 0x10C00 {
                                            0x10B80 <= u && u <= 0x10B91
                                        } else {
                                            0x10C00 <= u && u <= 0x10C48
                                        }
                                    }
                                } else {
                                    if u < 0x10CC0 {
                                        0x10C80 <= u && u <= 0x10CB2
                                    } else {
                                        if u < 0x10D00 {
                                            0x10CC0 <= u && u <= 0x10CF2
                                        } else {
                                            0x10D00 <= u && u <= 0x10D27
                                        }
                                    }
                                }
                            } else {
                                if u < 0x10EB0 {
                                    if u < 0x10E80 {
                                        0x10D30 <= u && u <= 0x10D39
                                    } else {
                                        if u < 0x10EAB {
                                            0x10E80 <= u && u <= 0x10EA9
                                        } else {
                                            0x10EAB <= u && u <= 0x10EAC
                                        }
                                    }
                                } else {
                                    if u < 0x10EFD {
                                        0x10EB0 <= u && u <= 0x10EB1
                                    } else {
                                        if u < 0x10F27 {
                                            0x10EFD <= u && u <= 0x10F1C
                                        } else {
                                            u == 0x10F27
                                        }
                                    }
                                }
                            }
                        }
                    } else {
                        if u < 0x11144 {
                            if u < 0x1107F {
                                if u < 0x10FE0 {
                                    if u < 0x10F70 {
                                        0x10F30 <= u && u <= 0x10F50
                                    } else {
                                        if u < 0x10FB0 {
                                            0x10F70 <= u && u <= 0x10F85
                                        } else {
                                            0x10FB0 <= u && u <= 0x10FC4
                                        }
                                    }
                                } else {
                                    if u < 0x11000 {
                                        0x10FE0 <= u && u <= 0x10FF6
                                    } else {
                                        if u < 0x11066 {
                                            0x11000 <= u && u <= 0x11046
                                        } else {
                                            0x11066 <= u && u <= 0x11075
                                        }
                                    }
                                }
                            } else {
                                if u < 0x110F0 {
                                    if u < 0x110C2 {
                                        0x1107F <= u && u <= 0x110BA
                                    } else {
                                        if u < 0x110D0 {
                                            u == 0x110C2
                                        } else {
                                            0x110D0 <= u && u <= 0x110E8
                                        }
                                    }
                                } else {
                                    if u < 0x11100 {
                                        0x110F0 <= u && u <= 0x110F9
                                    } else {
                                        if u < 0x11136 {
                                            0x11100 <= u && u <= 0x11134
                                        } else {
                                            0x11136 <= u && u <= 0x1113F
                                        }
                                    }
                                }
                            }
                        } else {
                            if u < 0x111DC {
                                if u < 0x11180 {
                                    if u < 0x11150 {
                                        0x11144 <= u && u <= 0x11147
                                    } else {
                                        if u < 0x11176 {
                                            0x11150 <= u && u <= 0x11173
                                        } else {
                                            u == 0x11176
                                        }
                                    }
                                } else {
                                    if u < 0x111C9 {
                                        0x11180 <= u && u <= 0x111C4
                                    } else {
                                        if u < 0x111CE {
                                            0x111C9 <= u && u <= 0x111CC
                                        } else {
                                            0x111CE <= u && u <= 0x111DA
                                        }
                                    }
                                }
                            } else {
                                if u < 0x1123E {
                                    if u < 0x11200 {
                                        u == 0x111DC
                                    } else {
                                        if u < 0x11213 {
                                            0x11200 <= u && u <= 0x11211
                                        } else {
                                            0x11213 <= u && u <= 0x11237
                                        }
                                    }
                                } else {
                                    if u < 0x11280 {
                                        0x1123E <= u && u <= 0x11241
                                    } else {
                                        if u < 0x11288 {
                                            0x11280 <= u && u <= 0x11286
                                        } else {
                                            u == 0x11288
                                        }
                                    }
                                }
                            }
                        }
                    }
                } else {
                    if u < 0x114C7 {
                        if u < 0x1133B {
                            if u < 0x11305 {
                                if u < 0x112B0 {
                                    if u < 0x1128F {
                                        0x1128A <= u && u <= 0x1128D
                                    } else {
                                        if u < 0x1129F {
                                            0x1128F <= u && u <= 0x1129D
                                        } else {
                                            0x1129F <= u && u <= 0x112A8
                                        }
                                    }
                                } else {
                                    if u < 0x112F0 {
                                        0x112B0 <= u && u <= 0x112EA
                                    } else {
                                        if u < 0x11300 {
                                            0x112F0 <= u && u <= 0x112F9
                                        } else {
                                            0x11300 <= u && u <= 0x11303
                                        }
                                    }
                                }
                            } else {
                                if u < 0x1132A {
                                    if u < 0x1130F {
                                        0x11305 <= u && u <= 0x1130C
                                    } else {
                                        if u < 0x11313 {
                                            0x1130F <= u && u <= 0x11310
                                        } else {
                                            0x11313 <= u && u <= 0x11328
                                        }
                                    }
                                } else {
                                    if u < 0x11332 {
                                        0x1132A <= u && u <= 0x11330
                                    } else {
                                        if u < 0x11335 {
                                            0x11332 <= u && u <= 0x11333
                                        } else {
                                            0x11335 <= u && u <= 0x11339
                                        }
                                    }
                                }
                            }
                        } else {
                            if u < 0x11366 {
                                if u < 0x11350 {
                                    if u < 0x11347 {
                                        0x1133B <= u && u <= 0x11344
                                    } else {
                                        if u < 0x1134B {
                                            0x11347 <= u && u <= 0x11348
                                        } else {
                                            0x1134B <= u && u <= 0x1134D
                                        }
                                    }
                                } else {
                                    if u < 0x11357 {
                                        u == 0x11350
                                    } else {
                                        if u < 0x1135D {
                                            u == 0x11357
                                        } else {
                                            0x1135D <= u && u <= 0x11363
                                        }
                                    }
                                }
                            } else {
                                if u < 0x11450 {
                                    if u < 0x11370 {
                                        0x11366 <= u && u <= 0x1136C
                                    } else {
                                        if u < 0x11400 {
                                            0x11370 <= u && u <= 0x11374
                                        } else {
                                            0x11400 <= u && u <= 0x1144A
                                        }
                                    }
                                } else {
                                    if u < 0x1145E {
                                        0x11450 <= u && u <= 0x11459
                                    } else {
                                        if u < 0x11480 {
                                            0x1145E <= u && u <= 0x11461
                                        } else {
                                            0x11480 <= u && u <= 0x114C5
                                        }
                                    }
                                }
                            }
                        }
                    } else {
                        if u < 0x11730 {
                            if u < 0x11644 {
                                if u < 0x115B8 {
                                    if u < 0x114D0 {
                                        u == 0x114C7
                                    } else {
                                        if u < 0x11580 {
                                            0x114D0 <= u && u <= 0x114D9
                                        } else {
                                            0x11580 <= u && u <= 0x115B5
                                        }
                                    }
                                } else {
                                    if u < 0x115D8 {
                                        0x115B8 <= u && u <= 0x115C0
                                    } else {
                                        if u < 0x11600 {
                                            0x115D8 <= u && u <= 0x115DD
                                        } else {
                                            0x11600 <= u && u <= 0x11640
                                        }
                                    }
                                }
                            } else {
                                if u < 0x116C0 {
                                    if u < 0x11650 {
                                        u == 0x11644
                                    } else {
                                        if u < 0x11680 {
                                            0x11650 <= u && u <= 0x11659
                                        } else {
                                            0x11680 <= u && u <= 0x116B8
                                        }
                                    }
                                } else {
                                    if u < 0x11700 {
                                        0x116C0 <= u && u <= 0x116C9
                                    } else {
                                        if u < 0x1171D {
                                            0x11700 <= u && u <= 0x1171A
                                        } else {
                                            0x1171D <= u && u <= 0x1172B
                                        }
                                    }
                                }
                            }
                        } else {
                            if u < 0x1190C {
                                if u < 0x118A0 {
                                    if u < 0x11740 {
                                        0x11730 <= u && u <= 0x11739
                                    } else {
                                        if u < 0x11800 {
                                            0x11740 <= u && u <= 0x11746
                                        } else {
                                            0x11800 <= u && u <= 0x1183A
                                        }
                                    }
                                } else {
                                    if u < 0x118FF {
                                        0x118A0 <= u && u <= 0x118E9
                                    } else {
                                        if u < 0x11909 {
                                            0x118FF <= u && u <= 0x11906
                                        } else {
                                            u == 0x11909
                                        }
                                    }
                                }
                            } else {
                                if u < 0x11937 {
                                    if u < 0x11915 {
                                        0x1190C <= u && u <= 0x11913
                                    } else {
                                        if u < 0x11918 {
                                            0x11915 <= u && u <= 0x11916
                                        } else {
                                            0x11918 <= u && u <= 0x11935
                                        }
                                    }
                                } else {
                                    if u < 0x11950 {
                                        if u < 0x1193B {
                                            0x11937 <= u && u <= 0x11938
                                        } else {
                                            0x1193B <= u && u <= 0x11943
                                        }
                                    } else {
                                        if u < 0x119A0 {
                                            0x11950 <= u && u <= 0x11959
                                        } else {
                                            0x119A0 <= u && u <= 0x119A7
                                        }
                                    }
                                }
                            }
                        }
                    }
                }
            }
        } else {
            if u < 0x1D50D {
                if u < 0x16B00 {
                    if u < 0x11D6A {
                        if u < 0x11C72 {
                            if u < 0x11A9D {
                                if u < 0x11A00 {
                                    if u < 0x119DA {
                                        0x119AA <= u && u <= 0x119D7
                                    } else {
                                        if u < 0x119E3 {
                                            0x119DA <= u && u <= 0x119E1
                                        } else {
                                            0x119E3 <= u && u <= 0x119E4
                                        }
                                    }
                                } else {
                                    if u < 0x11A47 {
                                        0x11A00 <= u && u <= 0x11A3E
                                    } else {
                                        if u < 0x11A50 {
                                            u == 0x11A47
                                        } else {
                                            0x11A50 <= u && u <= 0x11A99
                                        }
                                    }
                                }
                            } else {
                                if u < 0x11C0A {
                                    if u < 0x11AB0 {
                                        u == 0x11A9D
                                    } else {
                                        if u < 0x11C00 {
                                            0x11AB0 <= u && u <= 0x11AF8
                                        } else {
                                            0x11C00 <= u && u <= 0x11C08
                                        }
                                    }
                                } else {
                                    if u < 0x11C38 {
                                        0x11C0A <= u && u <= 0x11C36
                                    } else {
                                        if u < 0x11C50 {
                                            0x11C38 <= u && u <= 0x11C40
                                        } else {
                                            0x11C50 <= u && u <= 0x11C59
                                        }
                                    }
                                }
                            }
                        } else {
                            if u < 0x11D3A {
                                if u < 0x11D00 {
                                    if u < 0x11C92 {
                                        0x11C72 <= u && u <= 0x11C8F
                                    } else {
                                        if u < 0x11CA9 {
                                            0x11C92 <= u && u <= 0x11CA7
                                        } else {
                                            0x11CA9 <= u && u <= 0x11CB6
                                        }
                                    }
                                } else {
                                    if u < 0x11D08 {
                                        0x11D00 <= u && u <= 0x11D06
                                    } else {
                                        if u < 0x11D0B {
                                            0x11D08 <= u && u <= 0x11D09
                                        } else {
                                            0x11D0B <= u && u <= 0x11D36
                                        }
                                    }
                                }
                            } else {
                                if u < 0x11D50 {
                                    if u < 0x11D3C {
                                        u == 0x11D3A
                                    } else {
                                        if u < 0x11D3F {
                                            0x11D3C <= u && u <= 0x11D3D
                                        } else {
                                            0x11D3F <= u && u <= 0x11D47
                                        }
                                    }
                                } else {
                                    if u < 0x11D60 {
                                        0x11D50 <= u && u <= 0x11D59
                                    } else {
                                        if u < 0x11D67 {
                                            0x11D60 <= u && u <= 0x11D65
                                        } else {
                                            0x11D67 <= u && u <= 0x11D68
                                        }
                                    }
                                }
                            }
                        }
                    } else {
                        if u < 0x12480 {
                            if u < 0x11F12 {
                                if u < 0x11DA0 {
                                    if u < 0x11D90 {
                                        0x11D6A <= u && u <= 0x11D8E
                                    } else {
                                        if u < 0x11D93 {
                                            0x11D90 <= u && u <= 0x11D91
                                        } else {
                                            0x11D93 <= u && u <= 0x11D98
                                        }
                                    }
                                } else {
                                    if u < 0x11EE0 {
                                        0x11DA0 <= u && u <= 0x11DA9
                                    } else {
                                        if u < 0x11F00 {
                                            0x11EE0 <= u && u <= 0x11EF6
                                        } else {
                                            0x11F00 <= u && u <= 0x11F10
                                        }
                                    }
                                }
                            } else {
                                if u < 0x11FB0 {
                                    if u < 0x11F3E {
                                        0x11F12 <= u && u <= 0x11F3A
                                    } else {
                                        if u < 0x11F50 {
                                            0x11F3E <= u && u <= 0x11F42
                                        } else {
                                            0x11F50 <= u && u <= 0x11F59
                                        }
                                    }
                                } else {
                                    if u < 0x12000 {
                                        u == 0x11FB0
                                    } else {
                                        if u < 0x12400 {
                                            0x12000 <= u && u <= 0x12399
                                        } else {
                                            0x12400 <= u && u <= 0x1246E
                                        }
                                    }
                                }
                            }
                        } else {
                            if u < 0x16A40 {
                                if u < 0x13440 {
                                    if u < 0x12F90 {
                                        0x12480 <= u && u <= 0x12543
                                    } else {
                                        if u < 0x13000 {
                                            0x12F90 <= u && u <= 0x12FF0
                                        } else {
                                            0x13000 <= u && u <= 0x1342F
                                        }
                                    }
                                } else {
                                    if u < 0x14400 {
                                        0x13440 <= u && u <= 0x13455
                                    } else {
                                        if u < 0x16800 {
                                            0x14400 <= u && u <= 0x14646
                                        } else {
                                            0x16800 <= u && u <= 0x16A38
                                        }
                                    }
                                }
                            } else {
                                if u < 0x16AC0 {
                                    if u < 0x16A60 {
                                        0x16A40 <= u && u <= 0x16A5E
                                    } else {
                                        if u < 0x16A70 {
                                            0x16A60 <= u && u <= 0x16A69
                                        } else {
                                            0x16A70 <= u && u <= 0x16ABE
                                        }
                                    }
                                } else {
                                    if u < 0x16AD0 {
                                        0x16AC0 <= u && u <= 0x16AC9
                                    } else {
                                        if u < 0x16AF0 {
                                            0x16AD0 <= u && u <= 0x16AED
                                        } else {
                                            0x16AF0 <= u && u <= 0x16AF4
                                        }
                                    }
                                }
                            }
                        }
                    }
                } else {
                    if u < 0x1BC00 {
                        if u < 0x17000 {
                            if u < 0x16F00 {
                                if u < 0x16B63 {
                                    if u < 0x16B40 {
                                        0x16B00 <= u && u <= 0x16B36
                                    } else {
                                        if u < 0x16B50 {
                                            0x16B40 <= u && u <= 0x16B43
                                        } else {
                                            0x16B50 <= u && u <= 0x16B59
                                        }
                                    }
                                } else {
                                    if u < 0x16B7D {
                                        0x16B63 <= u && u <= 0x16B77
                                    } else {
                                        if u < 0x16E40 {
                                            0x16B7D <= u && u <= 0x16B8F
                                        } else {
                                            0x16E40 <= u && u <= 0x16E7F
                                        }
                                    }
                                }
                            } else {
                                if u < 0x16FE0 {
                                    if u < 0x16F4F {
                                        0x16F00 <= u && u <= 0x16F4A
                                    } else {
                                        if u < 0x16F8F {
                                            0x16F4F <= u && u <= 0x16F87
                                        } else {
                                            0x16F8F <= u && u <= 0x16F9F
                                        }
                                    }
                                } else {
                                    if u < 0x16FE3 {
                                        0x16FE0 <= u && u <= 0x16FE1
                                    } else {
                                        if u < 0x16FF0 {
                                            0x16FE3 <= u && u <= 0x16FE4
                                        } else {
                                            0x16FF0 <= u && u <= 0x16FF1
                                        }
                                    }
                                }
                            }
                        } else {
                            if u < 0x1B000 {
                                if u < 0x1AFF0 {
                                    if u < 0x18800 {
                                        0x17000 <= u && u <= 0x187F7
                                    } else {
                                        if u < 0x18D00 {
                                            0x18800 <= u && u <= 0x18CD5
                                        } else {
                                            0x18D00 <= u && u <= 0x18D08
                                        }
                                    }
                                } else {
                                    if u < 0x1AFF5 {
                                        0x1AFF0 <= u && u <= 0x1AFF3
                                    } else {
                                        if u < 0x1AFFD {
                                            0x1AFF5 <= u && u <= 0x1AFFB
                                        } else {
                                            0x1AFFD <= u && u <= 0x1AFFE
                                        }
                                    }
                                }
                            } else {
                                if u < 0x1B155 {
                                    if u < 0x1B132 {
                                        0x1B000 <= u && u <= 0x1B122
                                    } else {
                                        if u < 0x1B150 {
                                            u == 0x1B132
                                        } else {
                                            0x1B150 <= u && u <= 0x1B152
                                        }
                                    }
                                } else {
                                    if u < 0x1B164 {
                                        u == 0x1B155
                                    } else {
                                        if u < 0x1B170 {
                                            0x1B164 <= u && u <= 0x1B167
                                        } else {
                                            0x1B170 <= u && u <= 0x1B2FB
                                        }
                                    }
                                }
                            }
                        }
                    } else {
                        if u < 0x1D242 {
                            if u < 0x1CF30 {
                                if u < 0x1BC90 {
                                    if u < 0x1BC70 {
                                        0x1BC00 <= u && u <= 0x1BC6A
                                    } else {
                                        if u < 0x1BC80 {
                                            0x1BC70 <= u && u <= 0x1BC7C
                                        } else {
                                            0x1BC80 <= u && u <= 0x1BC88
                                        }
                                    }
                                } else {
                                    if u < 0x1BC9D {
                                        0x1BC90 <= u && u <= 0x1BC99
                                    } else {
                                        if u < 0x1CF00 {
                                            0x1BC9D <= u && u <= 0x1BC9E
                                        } else {
                                            0x1CF00 <= u && u <= 0x1CF2D
                                        }
                                    }
                                }
                            } else {
                                if u < 0x1D17B {
                                    if u < 0x1D165 {
                                        0x1CF30 <= u && u <= 0x1CF46
                                    } else {
                                        if u < 0x1D16D {
                                            0x1D165 <= u && u <= 0x1D169
                                        } else {
                                            0x1D16D <= u && u <= 0x1D172
                                        }
                                    }
                                } else {
                                    if u < 0x1D185 {
                                        0x1D17B <= u && u <= 0x1D182
                                    } else {
                                        if u < 0x1D1AA {
                                            0x1D185 <= u && u <= 0x1D18B
                                        } else {
                                            0x1D1AA <= u && u <= 0x1D1AD
                                        }
                                    }
                                }
                            }
                        } else {
                            if u < 0x1D4A9 {
                                if u < 0x1D49E {
                                    if u < 0x1D400 {
                                        0x1D242 <= u && u <= 0x1D244
                                    } else {
                                        if u < 0x1D456 {
                                            0x1D400 <= u && u <= 0x1D454
                                        } else {
                                            0x1D456 <= u && u <= 0x1D49C
                                        }
                                    }
                                } else {
                                    if u < 0x1D4A2 {
                                        0x1D49E <= u && u <= 0x1D49F
                                    } else {
                                        if u < 0x1D4A5 {
                                            u == 0x1D4A2
                                        } else {
                                            0x1D4A5 <= u && u <= 0x1D4A6
                                        }
                                    }
                                }
                            } else {
                                if u < 0x1D4BD {
                                    if u < 0x1D4AE {
                                        0x1D4A9 <= u && u <= 0x1D4AC
                                    } else {
                                        if u < 0x1D4BB {
                                            0x1D4AE <= u && u <= 0x1D4B9
                                        } else {
                                            u == 0x1D4BB
                                        }
                                    }
                                } else {
                                    if u < 0x1D4C5 {
                                        0x1D4BD <= u && u <= 0x1D4C3
                                    } else {
                                        if u < 0x1D507 {
                                            0x1D4C5 <= u && u <= 0x1D505
                                        } else {
                                            0x1D507 <= u && u <= 0x1D50A
                                        }
                                    }
                                }
                            }
                        }
                    }
                }
            } else {
                if u < 0x1E900 {
                    if u < 0x1DA9B {
                        if u < 0x1D716 {
                            if u < 0x1D54A {
                                if u < 0x1D53B {
                                    if u < 0x1D516 {
                                        0x1D50D <= u && u <= 0x1D514
                                    } else {
                                        if u < 0x1D51E {
                                            0x1D516 <= u && u <= 0x1D51C
                                        } else {
                                            0x1D51E <= u && u <= 0x1D539
                                        }
                                    }
                                } else {
                                    if u < 0x1D540 {
                                        0x1D53B <= u && u <= 0x1D53E
                                    } else {
                                        if u < 0x1D546 {
                                            0x1D540 <= u && u <= 0x1D544
                                        } else {
                                            u == 0x1D546
                                        }
                                    }
                                }
                            } else {
                                if u < 0x1D6C2 {
                                    if u < 0x1D552 {
                                        0x1D54A <= u && u <= 0x1D550
                                    } else {
                                        if u < 0x1D6A8 {
                                            0x1D552 <= u && u <= 0x1D6A5
                                        } else {
                                            0x1D6A8 <= u && u <= 0x1D6C0
                                        }
                                    }
                                } else {
                                    if u < 0x1D6DC {
                                        0x1D6C2 <= u && u <= 0x1D6DA
                                    } else {
                                        if u < 0x1D6FC {
                                            0x1D6DC <= u && u <= 0x1D6FA
                                        } else {
                                            0x1D6FC <= u && u <= 0x1D714
                                        }
                                    }
                                }
                            }
                        } else {
                            if u < 0x1D7C4 {
                                if u < 0x1D770 {
                                    if u < 0x1D736 {
                                        0x1D716 <= u && u <= 0x1D734
                                    } else {
                                        if u < 0x1D750 {
                                            0x1D736 <= u && u <= 0x1D74E
                                        } else {
                                            0x1D750 <= u && u <= 0x1D76E
                                        }
                                    }
                                } else {
                                    if u < 0x1D78A {
                                        0x1D770 <= u && u <= 0x1D788
                                    } else {
                                        if u < 0x1D7AA {
                                            0x1D78A <= u && u <= 0x1D7A8
                                        } else {
                                            0x1D7AA <= u && u <= 0x1D7C2
                                        }
                                    }
                                }
                            } else {
                                if u < 0x1DA3B {
                                    if u < 0x1D7CE {
                                        0x1D7C4 <= u && u <= 0x1D7CB
                                    } else {
                                        if u < 0x1DA00 {
                                            0x1D7CE <= u && u <= 0x1D7FF
                                        } else {
                                            0x1DA00 <= u && u <= 0x1DA36
                                        }
                                    }
                                } else {
                                    if u < 0x1DA75 {
                                        0x1DA3B <= u && u <= 0x1DA6C
                                    } else {
                                        if u < 0x1DA84 {
                                            u == 0x1DA75
                                        } else {
                                            u == 0x1DA84
                                        }
                                    }
                                }
                            }
                        }
                    } else {
                        if u < 0x1E130 {
                            if u < 0x1E01B {
                                if u < 0x1DF25 {
                                    if u < 0x1DAA1 {
                                        0x1DA9B <= u && u <= 0x1DA9F
                                    } else {
                                        if u < 0x1DF00 {
                                            0x1DAA1 <= u && u <= 0x1DAAF
                                        } else {
                                            0x1DF00 <= u && u <= 0x1DF1E
                                        }
                                    }
                                } else {
                                    if u < 0x1E000 {
                                        0x1DF25 <= u && u <= 0x1DF2A
                                    } else {
                                        if u < 0x1E008 {
                                            0x1E000 <= u && u <= 0x1E006
                                        } else {
                                            0x1E008 <= u && u <= 0x1E018
                                        }
                                    }
                                }
                            } else {
                                if u < 0x1E030 {
                                    if u < 0x1E023 {
                                        0x1E01B <= u && u <= 0x1E021
                                    } else {
                                        if u < 0x1E026 {
                                            0x1E023 <= u && u <= 0x1E024
                                        } else {
                                            0x1E026 <= u && u <= 0x1E02A
                                        }
                                    }
                                } else {
                                    if u < 0x1E08F {
                                        0x1E030 <= u && u <= 0x1E06D
                                    } else {
                                        if u < 0x1E100 {
                                            u == 0x1E08F
                                        } else {
                                            0x1E100 <= u && u <= 0x1E12C
                                        }
                                    }
                                }
                            }
                        } else {
                            if u < 0x1E7E0 {
                                if u < 0x1E290 {
                                    if u < 0x1E140 {
                                        0x1E130 <= u && u <= 0x1E13D
                                    } else {
                                        if u < 0x1E14E {
                                            0x1E140 <= u && u <= 0x1E149
                                        } else {
                                            u == 0x1E14E
                                        }
                                    }
                                } else {
                                    if u < 0x1E2C0 {
                                        0x1E290 <= u && u <= 0x1E2AE
                                    } else {
                                        if u < 0x1E4D0 {
                                            0x1E2C0 <= u && u <= 0x1E2F9
                                        } else {
                                            0x1E4D0 <= u && u <= 0x1E4F9
                                        }
                                    }
                                }
                            } else {
                                if u < 0x1E7F0 {
                                    if u < 0x1E7E8 {
                                        0x1E7E0 <= u && u <= 0x1E7E6
                                    } else {
                                        if u < 0x1E7ED {
                                            0x1E7E8 <= u && u <= 0x1E7EB
                                        } else {
                                            0x1E7ED <= u && u <= 0x1E7EE
                                        }
                                    }
                                } else {
                                    if u < 0x1E800 {
                                        0x1E7F0 <= u && u <= 0x1E7FE
                                    } else {
                                        if u < 0x1E8D0 {
                                            0x1E800 <= u && u <= 0x1E8C4
                                        } else {
                                            0x1E8D0 <= u && u <= 0x1E8D6
                                        }
                                    }
                                }
                            }
                        }
                    }
                } else {
                    if u < 0x1EE64 {
                        if u < 0x1EE47 {
                            if u < 0x1EE27 {
                                if u < 0x1EE05 {
                                    if u < 0x1E950 {
                                        0x1E900 <= u && u <= 0x1E94B
                                    } else {
                                        if u < 0x1EE00 {
                                            0x1E950 <= u && u <= 0x1E959
                                        } else {
                                            0x1EE00 <= u && u <= 0x1EE03
                                        }
                                    }
                                } else {
                                    if u < 0x1EE21 {
                                        0x1EE05 <= u && u <= 0x1EE1F
                                    } else {
                                        if u < 0x1EE24 {
                                            0x1EE21 <= u && u <= 0x1EE22
                                        } else {
                                            u == 0x1EE24
                                        }
                                    }
                                }
                            } else {
                                if u < 0x1EE39 {
                                    if u < 0x1EE29 {
                                        u == 0x1EE27
                                    } else {
                                        if u < 0x1EE34 {
                                            0x1EE29 <= u && u <= 0x1EE32
                                        } else {
                                            0x1EE34 <= u && u <= 0x1EE37
                                        }
                                    }
                                } else {
                                    if u < 0x1EE3B {
                                        u == 0x1EE39
                                    } else {
                                        if u < 0x1EE42 {
                                            u == 0x1EE3B
                                        } else {
                                            u == 0x1EE42
                                        }
                                    }
                                }
                            }
                        } else {
                            if u < 0x1EE57 {
                                if u < 0x1EE4D {
                                    if u < 0x1EE49 {
                                        u == 0x1EE47
                                    } else {
                                        if u < 0x1EE4B {
                                            u == 0x1EE49
                                        } else {
                                            u == 0x1EE4B
                                        }
                                    }
                                } else {
                                    if u < 0x1EE51 {
                                        0x1EE4D <= u && u <= 0x1EE4F
                                    } else {
                                        if u < 0x1EE54 {
                                            0x1EE51 <= u && u <= 0x1EE52
                                        } else {
                                            u == 0x1EE54
                                        }
                                    }
                                }
                            } else {
                                if u < 0x1EE5D {
                                    if u < 0x1EE59 {
                                        u == 0x1EE57
                                    } else {
                                        if u < 0x1EE5B {
                                            u == 0x1EE59
                                        } else {
                                            u == 0x1EE5B
                                        }
                                    }
                                } else {
                                    if u < 0x1EE5F {
                                        u == 0x1EE5D
                                    } else {
                                        if u < 0x1EE61 {
                                            u == 0x1EE5F
                                        } else {
                                            0x1EE61 <= u && u <= 0x1EE62
                                        }
                                    }
                                }
                            }
                        }
                    } else {
                        if u < 0x1F150 {
                            if u < 0x1EE80 {
                                if u < 0x1EE74 {
                                    if u < 0x1EE67 {
                                        u == 0x1EE64
                                    } else {
                                        if u < 0x1EE6C {
                                            0x1EE67 <= u && u <= 0x1EE6A
                                        } else {
                                            0x1EE6C <= u && u <= 0x1EE72
                                        }
                                    }
                                } else {
                                    if u < 0x1EE79 {
                                        0x1EE74 <= u && u <= 0x1EE77
                                    } else {
                                        if u < 0x1EE7E {
                                            0x1EE79 <= u && u <= 0x1EE7C
                                        } else {
                                            u == 0x1EE7E
                                        }
                                    }
                                }
                            } else {
                                if u < 0x1EEA5 {
                                    if u < 0x1EE8B {
                                        0x1EE80 <= u && u <= 0x1EE89
                                    } else {
                                        if u < 0x1EEA1 {
                                            0x1EE8B <= u && u <= 0x1EE9B
                                        } else {
                                            0x1EEA1 <= u && u <= 0x1EEA3
                                        }
                                    }
                                } else {
                                    if u < 0x1EEAB {
                                        0x1EEA5 <= u && u <= 0x1EEA9
                                    } else {
                                        if u < 0x1F130 {
                                            0x1EEAB <= u && u <= 0x1EEBB
                                        } else {
                                            0x1F130 <= u && u <= 0x1F149
                                        }
                                    }
                                }
                            }
                        } else {
                            if u < 0x2B820 {
                                if u < 0x20000 {
                                    if u < 0x1F170 {
                                        0x1F150 <= u && u <= 0x1F169
                                    } else {
                                        if u < 0x1FBF0 {
                                            0x1F170 <= u && u <= 0x1F189
                                        } else {
                                            0x1FBF0 <= u && u <= 0x1FBF9
                                        }
                                    }
                                } else {
                                    if u < 0x2A700 {
                                        0x20000 <= u && u <= 0x2A6DF
                                    } else {
                                        if u < 0x2B740 {
                                            0x2A700 <= u && u <= 0x2B739
                                        } else {
                                            0x2B740 <= u && u <= 0x2B81D
                                        }
                                    }
                                }
                            } else {
                                if u < 0x2F800 {
                                    if u < 0x2CEB0 {
                                        0x2B820 <= u && u <= 0x2CEA1
                                    } else {
                                        if u < 0x2EBF0 {
                                            0x2CEB0 <= u && u <= 0x2EBE0
                                        } else {
                                            0x2EBF0 <= u && u <= 0x2EE5D
                                        }
                                    }
                                } else {
                                    if u < 0x31350 {
                                        if u < 0x30000 {
                                            0x2F800 <= u && u <= 0x2FA1D
                                        } else {
                                            0x30000 <= u && u <= 0x3134A
                                        }
                                    } else {
                                        if u < 0xE0100 {
                                            0x31350 <= u && u <= 0x323AF
                                        } else {
                                            0xE0100 <= u && u <= 0xE01EF
                                        }
                                    }
                                }
                            }
                        }
                    }
                }
            }
        }
    }
}

/// The delimiters of a version line lie outside the classes they delimit.
pub proof fn lemma_class_facts()
    ensures
        !is_decimal_digit('.'),
        !is_decimal_digit(' '),
        !is_word_char(')'),
{
}

} // verus!
