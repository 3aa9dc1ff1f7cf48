//! Starting Minecraft from a launch plan: the argv split and the errors a
//! failed start is reported with.

use vstd::prelude::*;
use crate::error::AetherError;
use crate::launch::LaunchPlan;
use crate::text::views;

verus! {

/// The program and its arguments: `command[0]` and the rest. A plan
/// without a command is refused (`InvalidState("LaunchPlan sin comando")`).
pub fn split_command(plan: &LaunchPlan) -> (r: Result<(String, Vec<String>), AetherError>)
    ensures
        plan.command@.len() == 0 ==> (r matches Err(AetherError::InvalidState(m)) && m@
            == "LaunchPlan sin comando"@),
        plan.command@.len() > 0 ==> (r matches Ok((program, args)) && program@
            == plan.command@[0]@ && views(args@) == views(plan.command@).drop_first()),
{
    if plan.command.len() == 0 {
        return Err(AetherError::InvalidState("LaunchPlan sin comando".to_owned()));
    }
    let program = plan.command[0].clone();
    let mut args: Vec<String> = Vec::new();
    let mut i: usize = 1;
    while i < plan.command.len()
        invariant
            1 <= i <= plan.command@.len(),
            views(args@) == views(plan.command@).subrange(1, i as int),
        decreases plan.command.len() - i,
    {
        let a = plan.command[i].clone();
        let ghost b = args@;
        args.push(a);
        assert(views(args@) =~= views(b).push(plan.command@[i as int]@));
        assert(views(args@) =~= views(plan.command@).subrange(1, i + 1));
        i = i + 1;
    }
    assert(views(plan.command@).subrange(1, plan.command@.len() as int) =~= views(
        plan.command@,
    ).drop_first());
    Ok((program, args))
}

/// The error of a failed start: `NotFound` naming the Java binary when the
/// executable was not found, `InvalidState` with the cause otherwise.
pub fn spawn_failure(java: &str, not_found: bool, cause: &str) -> (r: AetherError)
    ensures
        not_found ==> (r matches AetherError::NotFound(m) && m@
            == "no se encontro el ejecutable de Java en '"@ + java@ + "'"@),
        !not_found ==> (r matches AetherError::InvalidState(m) && m@
            == "no se pudo iniciar Minecraft: "@ + cause@),
{
    if not_found {
        let mut m = "no se encontro el ejecutable de Java en '".to_owned();
        m.append(java);
        m.append("'");
        AetherError::NotFound(m)
    } else {
        let mut m = "no se pudo iniciar Minecraft: ".to_owned();
        m.append(cause);
        AetherError::InvalidState(m)
    }
}

} // verus!
