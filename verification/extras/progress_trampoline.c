/*
 * libopenconnect reports progress through a printf-style variadic callback,
 * which stable Rust cannot define. This shim formats the message and hands
 * the finished string to gp_rust_progress, defined by the helper program.
 */
#include <stdarg.h>
#include <stdio.h>
#include <stdlib.h>

void gp_rust_progress(void *privdata, int level, const char *message);

void gp_progress_trampoline(void *privdata, int level, const char *fmt, ...)
{
	va_list args;
	va_list copy;
	char small[512];
	int needed;

	va_start(args, fmt);
	va_copy(copy, args);
	needed = vsnprintf(small, sizeof(small), fmt, args);
	va_end(args);
	if (needed < 0) {
		va_end(copy);
		return;
	}
	if ((size_t)needed < sizeof(small)) {
		va_end(copy);
		gp_rust_progress(privdata, level, small);
		return;
	}
	char *large = malloc((size_t)needed + 1);
	if (large) {
		vsnprintf(large, (size_t)needed + 1, fmt, copy);
		gp_rust_progress(privdata, level, large);
		free(large);
	}
	va_end(copy);
}
