//! Display names of opcodes.

use vstd::prelude::*;
use vstd::string::StrSliceExecFns;

verus! {

/// The published mnemonics of opcodes `0xH0` to `0xHF` for `high == H`,
/// three letters each, illegal opcodes included.
pub open spec fn name_row(high: u8) -> &'static str {
    if high == 0x0 {
        "BRKORAJAMSLONOPORAASLSLOPHPORAASLANCNOPORAASLSLO"
    } else if high == 0x1 {
        "BPLORAJAMSLONOPORAASLSLOCLCORANOPSLONOPORAASLSLO"
    } else if high == 0x2 {
        "JSRANDJAMRLABITANDROLRLAPLPANDROLANCBITANDROLRLA"
    } else if high == 0x3 {
        "BMIANDJAMRLANOPANDROLRLASECANDNOPRLANOPANDROLRLA"
    } else if high == 0x4 {
        "RTIEORJAMSRENOPEORLSRSREPHAEORLSRALRJMPEORLSRSRE"
    } else if high == 0x5 {
        "BVCEORJAMSRENOPEORLSRSRECLIEORNOPSRENOPEORLSRSRE"
    } else if high == 0x6 {
        "RTSADCJAMRRANOPADCRORRRAPLAADCRORARRJMPADCRORRRA"
    } else if high == 0x7 {
        "BVSADCJAMRRANOPADCRORRRASEIADCNOPRRANOPADCRORRRA"
    } else if high == 0x8 {
        "NOPSTANOPSAXSTYSTASTXSAXDEYNOPTXAXAASTYSTASTXSAX"
    } else if high == 0x9 {
        "BCCSTAJAMAHXSTYSTASTXSAXTYASTATXSTASSHYSTASHXSHA"
    } else if high == 0xA {
        "LDYLDALDXLAXLDYLDALDXLAXTAYLDATAXLAXLDYLDALDXLAX"
    } else if high == 0xB {
        "BCSLDAJAMLAXLDYLDALDXLAXCLVLDATSXLASLDYLDALDXLAX"
    } else if high == 0xC {
        "CPYCMPNOPDCPCPYCMPDECDCPINYCMPDEXAXSCPYCMPDECDCP"
    } else if high == 0xD {
        "BNECMPJAMDCPNOPCMPDECDCPCLDCMPNOPDCPNOPCMPDECDCP"
    } else if high == 0xE {
        "CPXSBCNOPISCCPXSBCINCISCINXSBCNOPSBCCPXSBCINCISC"
    } else {
        "BEQSBCJAMISCNOPSBCINCISCSEDSBCNOPISCNOPSBCINCISC"
    }
}

fn name_row_of(high: u8) -> (r: &'static str)
    ensures
        r == name_row(high),
        r@.len() == 48,
{
    proof {
        reveal_strlit("BRKORAJAMSLONOPORAASLSLOPHPORAASLANCNOPORAASLSLO");
        reveal_strlit("BPLORAJAMSLONOPORAASLSLOCLCORANOPSLONOPORAASLSLO");
        reveal_strlit("JSRANDJAMRLABITANDROLRLAPLPANDROLANCBITANDROLRLA");
        reveal_strlit("BMIANDJAMRLANOPANDROLRLASECANDNOPRLANOPANDROLRLA");
        reveal_strlit("RTIEORJAMSRENOPEORLSRSREPHAEORLSRALRJMPEORLSRSRE");
        reveal_strlit("BVCEORJAMSRENOPEORLSRSRECLIEORNOPSRENOPEORLSRSRE");
        reveal_strlit("RTSADCJAMRRANOPADCRORRRAPLAADCRORARRJMPADCRORRRA");
        reveal_strlit("BVSADCJAMRRANOPADCRORRRASEIADCNOPRRANOPADCRORRRA");
        reveal_strlit("NOPSTANOPSAXSTYSTASTXSAXDEYNOPTXAXAASTYSTASTXSAX");
        reveal_strlit("BCCSTAJAMAHXSTYSTASTXSAXTYASTATXSTASSHYSTASHXSHA");
        reveal_strlit("LDYLDALDXLAXLDYLDALDXLAXTAYLDATAXLAXLDYLDALDXLAX");
        reveal_strlit("BCSLDAJAMLAXLDYLDALDXLAXCLVLDATSXLASLDYLDALDXLAX");
        reveal_strlit("CPYCMPNOPDCPCPYCMPDECDCPINYCMPDEXAXSCPYCMPDECDCP");
        reveal_strlit("BNECMPJAMDCPNOPCMPDECDCPCLDCMPNOPDCPNOPCMPDECDCP");
        reveal_strlit("CPXSBCNOPISCCPXSBCINCISCINXSBCNOPSBCCPXSBCINCISC");
        reveal_strlit("BEQSBCJAMISCNOPSBCINCISCSEDSBCNOPISCNOPSBCINCISC");
    }
    match high {
        0x0 => "BRKORAJAMSLONOPORAASLSLOPHPORAASLANCNOPORAASLSLO",
        0x1 => "BPLORAJAMSLONOPORAASLSLOCLCORANOPSLONOPORAASLSLO",
        0x2 => "JSRANDJAMRLABITANDROLRLAPLPANDROLANCBITANDROLRLA",
        0x3 => "BMIANDJAMRLANOPANDROLRLASECANDNOPRLANOPANDROLRLA",
        0x4 => "RTIEORJAMSRENOPEORLSRSREPHAEORLSRALRJMPEORLSRSRE",
        0x5 => "BVCEORJAMSRENOPEORLSRSRECLIEORNOPSRENOPEORLSRSRE",
        0x6 => "RTSADCJAMRRANOPADCRORRRAPLAADCRORARRJMPADCRORRRA",
        0x7 => "BVSADCJAMRRANOPADCRORRRASEIADCNOPRRANOPADCRORRRA",
        0x8 => "NOPSTANOPSAXSTYSTASTXSAXDEYNOPTXAXAASTYSTASTXSAX",
        0x9 => "BCCSTAJAMAHXSTYSTASTXSAXTYASTATXSTASSHYSTASHXSHA",
        0xA => "LDYLDALDXLAXLDYLDALDXLAXTAYLDATAXLAXLDYLDALDXLAX",
        0xB => "BCSLDAJAMLAXLDYLDALDXLAXCLVLDATSXLASLDYLDALDXLAX",
        0xC => "CPYCMPNOPDCPCPYCMPDECDCPINYCMPDEXAXSCPYCMPDECDCP",
        0xD => "BNECMPJAMDCPNOPCMPDECDCPCLDCMPNOPDCPNOPCMPDECDCP",
        0xE => "CPXSBCNOPISCCPXSBCINCISCINXSBCNOPSBCCPXSBCINCISC",
        _ => "BEQSBCJAMISCNOPSBCINCISCSEDSBCNOPISCNOPSBCINCISC",
    }
}

/// The published mnemonic of `opcode`, for display.
pub fn opcode_name(opcode: u8) -> (r: &'static str)
    ensures
        r@ == name_row(opcode / 16)@.subrange(3 * (opcode % 16), 3 * (opcode % 16) + 3),
{
    let row = name_row_of(opcode / 16);
    let at = 3 * (opcode % 16) as usize;
    row.substring_char(at, at + 3)
}

} // verus!
